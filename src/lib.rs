//! Authorization decisions for services: a scope checker capability, the
//! permission evaluator contract with its two preset evaluators, a per-user
//! role cache, and the rule logic that concrete evaluators are built from.
//! Beside them stand the mail notifications, the names of services and
//! mail templates, and the cart and price records.

pub mod acl;
pub mod emails;
pub mod policy;
pub mod roles_cache;
pub mod scope;
pub mod service;
pub mod structs;
pub mod templates;
mod text;
