use vstd::prelude::*;
use crate::text::same_text;

verus! {

/// The mail templates that can be rendered.
#[derive(Clone, Copy, Debug, PartialEq, Eq, Structural)]
pub enum TemplateVariant {
    /// Template for the order create for user.
    OrderCreateForUser,
    /// Template for the order update state for user.
    OrderUpdateStateForUser,
    /// Template for the order create for store.
    OrderCreateForStore,
    /// Template for the order update state for store.
    OrderUpdateStateForStore,
    /// Template for the email verification.
    EmailVerificationForUser,
    /// Template for the password reset.
    PasswordResetForUser,
    /// Template for the apply password reset.
    ApplyPasswordResetForUser,
    /// Template for the apply email verification.
    ApplyEmailVerificationForUser,
}

/// The name under which a template variant is known.
pub open spec fn variant_name(variant: TemplateVariant) -> Seq<char> {
    match variant {
        TemplateVariant::OrderCreateForUser => "order_create_for_user"@,
        TemplateVariant::OrderUpdateStateForUser => "order_update_state_for_user"@,
        TemplateVariant::OrderCreateForStore => "order_create_for_store"@,
        TemplateVariant::OrderUpdateStateForStore => "order_update_state_for_store"@,
        TemplateVariant::EmailVerificationForUser => "email_verification_for_user"@,
        TemplateVariant::PasswordResetForUser => "password_reset_for_user"@,
        TemplateVariant::ApplyPasswordResetForUser => "apply_password_reset_for_user"@,
        TemplateVariant::ApplyEmailVerificationForUser => "apply_email_verification_for_user"@,
    }
}

impl TemplateVariant {
    /// The name of the template variant.
    pub fn to_string(&self) -> (r: String)
        ensures
            r@ == variant_name(*self),
    {
        match self {
            TemplateVariant::OrderCreateForUser => "order_create_for_user".to_owned(),
            TemplateVariant::OrderUpdateStateForUser => "order_update_state_for_user".to_owned(),
            TemplateVariant::OrderCreateForStore => "order_create_for_store".to_owned(),
            TemplateVariant::OrderUpdateStateForStore => "order_update_state_for_store".to_owned(),
            TemplateVariant::EmailVerificationForUser => "email_verification_for_user".to_owned(),
            TemplateVariant::PasswordResetForUser => "password_reset_for_user".to_owned(),
            TemplateVariant::ApplyPasswordResetForUser => "apply_password_reset_for_user".to_owned(),
            TemplateVariant::ApplyEmailVerificationForUser => "apply_email_verification_for_user".to_owned(),
        }
    }

    /// The template variant with the given name, if there is one.
    pub fn from_name(s: &str) -> (r: Result<TemplateVariant, ()>)
        ensures
            match r {
                Ok(variant) => variant_name(variant) == s@,
                Err(_) => forall|variant: TemplateVariant| variant_name(variant) != s@,
            },
    {
        if same_text(s, "order_create_for_user") {
            Ok(TemplateVariant::OrderCreateForUser)
        } else if same_text(s, "order_update_state_for_user") {
            Ok(TemplateVariant::OrderUpdateStateForUser)
        } else if same_text(s, "order_create_for_store") {
            Ok(TemplateVariant::OrderCreateForStore)
        } else if same_text(s, "order_update_state_for_store") {
            Ok(TemplateVariant::OrderUpdateStateForStore)
        } else if same_text(s, "email_verification_for_user") {
            Ok(TemplateVariant::EmailVerificationForUser)
        } else if same_text(s, "password_reset_for_user") {
            Ok(TemplateVariant::PasswordResetForUser)
        } else if same_text(s, "apply_password_reset_for_user") {
            Ok(TemplateVariant::ApplyPasswordResetForUser)
        } else if same_text(s, "apply_email_verification_for_user") {
            Ok(TemplateVariant::ApplyEmailVerificationForUser)
        } else {
            Err(())
        }
    }
}

impl std::str::FromStr for TemplateVariant {
    type Err = ();

    fn from_str(s: &str) -> (r: Result<TemplateVariant, ()>)
        ensures
            match r {
                Ok(variant) => variant_name(variant) == s@,
                Err(_) => forall|variant: TemplateVariant| variant_name(variant) != s@,
            },
    {
        TemplateVariant::from_name(s)
    }
}

/// Different template variants have different names, so that reading back the
/// name of a variant gives that variant.
pub proof fn lemma_variant_names_distinct(a: TemplateVariant, b: TemplateVariant)
    ensures
        variant_name(a) == variant_name(b) ==> a == b,
{
    reveal_strlit("order_create_for_user");
    reveal_strlit("order_update_state_for_user");
    reveal_strlit("order_create_for_store");
    reveal_strlit("order_update_state_for_store");
    reveal_strlit("email_verification_for_user");
    reveal_strlit("password_reset_for_user");
    reveal_strlit("apply_password_reset_for_user");
    reveal_strlit("apply_email_verification_for_user");
    if variant_name(a) == variant_name(b) && a != b {
        let (x, y) = (variant_name(a), variant_name(b));
        assert(x.len() != y.len() || x[0] != y[0]);
    }
}

} // verus!
