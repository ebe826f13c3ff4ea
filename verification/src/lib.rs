//! VIGIL: the verified core of a control room for production releases and incidents.
//!
//! The library holds the domain models (teams, incidents, releases, rules), the state
//! machines that move them, the permission rules of each team role, the rule engine's
//! filter and template language, webhook signature checking, token encryption, and the
//! decisions that each service operation takes once its data has been loaded.
pub mod features;
pub mod shared;
