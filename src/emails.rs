use vstd::prelude::*;
use vstd::string::StringExecFns;

verus! {

/// A plain mail, ready to be sent.
#[derive(Clone, Debug)]
pub struct SimpleMail {
    pub to: String,
    pub subject: String,
    pub text: String,
}

/// The addressee of a mail.
#[derive(Clone, Debug)]
pub struct EmailUser {
    pub email: String,
    pub first_name: String,
    pub last_name: String,
}

/// A notification that can be rendered as a mail.
pub trait Email {
    fn into_send_mail(self) -> SimpleMail;
}

/// The subject of a mail about the state of an order.
pub open spec fn order_status_subject(order_slug: Seq<char>) -> Seq<char> {
    "The order "@ + order_slug + " status"@
}

/// The subject of a mail about a new order.
pub open spec fn new_order_subject(order_slug: Seq<char>) -> Seq<char> {
    "New order "@ + order_slug + "."@
}

/// A link to an order as its customer sees it.
pub open spec fn customer_order_link(cluster_url: Seq<char>, order_slug: Seq<char>) -> Seq<char> {
    "You can view current info about your order on <a href=\""@ + cluster_url + "/profile/orders/"@
        + order_slug + "\">this page</a>."@
}

/// A link to an order as its store sees it.
pub open spec fn store_order_link(
    cluster_url: Seq<char>,
    store_id: Seq<char>,
    order_slug: Seq<char>,
) -> Seq<char> {
    "You can view current order info on <a href=\""@ + cluster_url + "/manage/store/"@ + store_id
        + "/orders/"@ + order_slug + "\">this page</a>."@
}

/// The first sentence of a mail about the state of an order.
pub open spec fn order_state_sentence(order_slug: Seq<char>, order_state: Seq<char>) -> Seq<char> {
    "Orders' "@ + order_slug + " state is '"@ + order_state + "' now. "@
}

/// The first sentence of a mail about a new order.
pub open spec fn order_created_sentence(order_slug: Seq<char>) -> Seq<char> {
    "Order "@ + order_slug + " was created. "@
}

/// A path followed by a slash and a token.
pub open spec fn token_link(path: Seq<char>, token: Seq<char>) -> Seq<char> {
    path + "/"@ + token
}

fn subject_order_status(order_slug: &String) -> (r: String)
    ensures
        r@ == order_status_subject(order_slug@),
{
    let mut s = "The order ".to_owned();
    s.append(order_slug.as_str());
    s.append(" status");
    s
}

fn subject_new_order(order_slug: &String) -> (r: String)
    ensures
        r@ == new_order_subject(order_slug@),
{
    let mut s = "New order ".to_owned();
    s.append(order_slug.as_str());
    s.append(".");
    s
}

fn link_for_customer(s: &mut String, cluster_url: &String, order_slug: &String)
    ensures
        final(s)@ == old(s)@ + customer_order_link(cluster_url@, order_slug@),
{
    let ghost start = s@;
    s.append("You can view current info about your order on <a href=\"");
    s.append(cluster_url.as_str());
    s.append("/profile/orders/");
    s.append(order_slug.as_str());
    s.append("\">this page</a>.");
    assert(s@ =~= start + customer_order_link(cluster_url@, order_slug@));
}

fn link_for_store(s: &mut String, cluster_url: &String, store_id: &String, order_slug: &String)
    ensures
        final(s)@ == old(s)@ + store_order_link(cluster_url@, store_id@, order_slug@),
{
    let ghost start = s@;
    s.append("You can view current order info on <a href=\"");
    s.append(cluster_url.as_str());
    s.append("/manage/store/");
    s.append(store_id.as_str());
    s.append("/orders/");
    s.append(order_slug.as_str());
    s.append("\">this page</a>.");
    assert(s@ =~= start + store_order_link(cluster_url@, store_id@, order_slug@));
}

fn state_sentence(order_slug: &String, order_state: &String) -> (r: String)
    ensures
        r@ == order_state_sentence(order_slug@, order_state@),
{
    let mut s = "Orders' ".to_owned();
    s.append(order_slug.as_str());
    s.append(" state is '");
    s.append(order_state.as_str());
    s.append("' now. ");
    s
}

fn created_sentence(order_slug: &String) -> (r: String)
    ensures
        r@ == order_created_sentence(order_slug@),
{
    let mut s = "Order ".to_owned();
    s.append(order_slug.as_str());
    s.append(" was created. ");
    s
}

fn join_token(path: &String, token: &String) -> (r: String)
    ensures
        r@ == token_link(path@, token@),
{
    let mut s = path.clone();
    s.append("/");
    s.append(token.as_str());
    s
}

/// Tells a customer that the state of an order changed.
#[derive(Clone, Debug)]
pub struct OrderUpdateStateForUser {
    pub user: EmailUser,
    pub order_slug: String,
    pub order_state: String,
    pub cluster_url: String,
}

impl Email for OrderUpdateStateForUser {
    fn into_send_mail(self) -> (r: SimpleMail)
        ensures
            r.to@ == self.user.email@,
            r.subject@ == order_status_subject(self.order_slug@),
            r.text@ == order_state_sentence(self.order_slug@, self.order_state@)
                + customer_order_link(self.cluster_url@, self.order_slug@),
    {
        let subject = subject_order_status(&self.order_slug);
        let mut text = state_sentence(&self.order_slug, &self.order_state);
        link_for_customer(&mut text, &self.cluster_url, &self.order_slug);
        SimpleMail { to: self.user.email, subject, text }
    }
}

/// Tells a store that the state of one of its orders changed.
#[derive(Clone, Debug)]
pub struct OrderUpdateStateForStore {
    pub store_email: String,
    pub order_slug: String,
    pub order_state: String,
    pub cluster_url: String,
    pub store_id: String,
}

impl Email for OrderUpdateStateForStore {
    fn into_send_mail(self) -> (r: SimpleMail)
        ensures
            r.to@ == self.store_email@,
            r.subject@ == order_status_subject(self.order_slug@),
            r.text@ == order_state_sentence(self.order_slug@, self.order_state@)
                + store_order_link(self.cluster_url@, self.store_id@, self.order_slug@),
    {
        let subject = subject_order_status(&self.order_slug);
        let mut text = state_sentence(&self.order_slug, &self.order_state);
        link_for_store(&mut text, &self.cluster_url, &self.store_id, &self.order_slug);
        SimpleMail { to: self.store_email, subject, text }
    }
}

/// Tells a customer that an order was created.
#[derive(Clone, Debug)]
pub struct OrderCreateForUser {
    pub user: EmailUser,
    pub order_slug: String,
    pub cluster_url: String,
}

impl Email for OrderCreateForUser {
    fn into_send_mail(self) -> (r: SimpleMail)
        ensures
            r.to@ == self.user.email@,
            r.subject@ == new_order_subject(self.order_slug@),
            r.text@ == order_created_sentence(self.order_slug@)
                + customer_order_link(self.cluster_url@, self.order_slug@),
    {
        let subject = subject_new_order(&self.order_slug);
        let mut text = created_sentence(&self.order_slug);
        link_for_customer(&mut text, &self.cluster_url, &self.order_slug);
        SimpleMail { to: self.user.email, subject, text }
    }
}

/// Tells a store that an order was created.
#[derive(Clone, Debug)]
pub struct OrderCreateForStore {
    pub store_email: String,
    pub order_slug: String,
    pub cluster_url: String,
    pub store_id: String,
}

impl Email for OrderCreateForStore {
    fn into_send_mail(self) -> (r: SimpleMail)
        ensures
            r.to@ == self.store_email@,
            r.subject@ == new_order_subject(self.order_slug@),
            r.text@ == order_created_sentence(self.order_slug@)
                + store_order_link(self.cluster_url@, self.store_id@, self.order_slug@),
    {
        let subject = subject_new_order(&self.order_slug);
        let mut text = created_sentence(&self.order_slug);
        link_for_store(&mut text, &self.cluster_url, &self.store_id, &self.order_slug);
        SimpleMail { to: self.store_email, subject, text }
    }
}

/// Sends a user the link that verifies their address.
#[derive(Clone, Debug)]
pub struct EmailVerificationForUser {
    pub user: EmailUser,
    pub verify_email_path: String,
    pub token: String,
}

impl Email for EmailVerificationForUser {
    fn into_send_mail(self) -> (r: SimpleMail)
        ensures
            r.to@ == self.user.email@,
            r.subject@ == "Verify your account on Storiqa"@,
            r.text@ == token_link(self.verify_email_path@, self.token@),
    {
        let text = join_token(&self.verify_email_path, &self.token);
        SimpleMail { to: self.user.email, subject: "Verify your account on Storiqa".to_owned(), text }
    }
}

/// Sends a user the link that resets their password.
#[derive(Clone, Debug)]
pub struct PasswordResetForUser {
    pub user: EmailUser,
    pub reset_password_path: String,
    pub token: String,
}

impl Email for PasswordResetForUser {
    fn into_send_mail(self) -> (r: SimpleMail)
        ensures
            r.to@ == self.user.email@,
            r.subject@ == "Password reset"@,
            r.text@ == token_link(self.reset_password_path@, self.token@),
    {
        let text = join_token(&self.reset_password_path, &self.token);
        SimpleMail { to: self.user.email, subject: "Password reset".to_owned(), text }
    }
}

/// Confirms to a user that their password was reset.
#[derive(Clone, Debug)]
pub struct ApplyPasswordResetForUser {
    pub user: EmailUser,
    pub cluster_url: String,
}

impl Email for ApplyPasswordResetForUser {
    fn into_send_mail(self) -> (r: SimpleMail)
        ensures
            r.to@ == self.user.email@,
            r.subject@ == "Successful password reset"@,
            r.text@ == "Password for linked account has been successfully reset."@,
    {
        SimpleMail {
            to: self.user.email,
            subject: "Successful password reset".to_owned(),
            text: "Password for linked account has been successfully reset.".to_owned(),
        }
    }
}

/// Confirms to a user that their address was verified.
#[derive(Clone, Debug)]
pub struct ApplyEmailVerificationForUser {
    pub user: EmailUser,
}

impl Email for ApplyEmailVerificationForUser {
    fn into_send_mail(self) -> (r: SimpleMail)
        ensures
            r.to@ == self.user.email@,
            r.subject@ == "Successful registration"@,
            r.text@ == "Email for linked account has been verified."@,
    {
        SimpleMail {
            to: self.user.email,
            subject: "Successful registration".to_owned(),
            text: "Email for linked account has been verified.".to_owned(),
        }
    }
}

} // verus!
