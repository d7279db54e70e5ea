//! The nightly build of the editor: which version is offered, which is
//! installed, and what the user answers to the offer.

pub mod scrap;
pub mod update_offer;
pub mod ver_compare;
