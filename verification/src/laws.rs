//! What holds of every start-up.
//!
//! [`runs`] and [`replies`] are about runs of any procedure: whatever a driver replies, and in
//! whatever order. [`starts`] is about how the three procedures set out and what they come to,
//! [`plans`] about what they do in which order, [`made_with`] about what each of their actions is
//! made with, [`parts`] about the parts that they hand from one action to the next, and [`handed`]
//! about what holds of several actions at once. [`settings`] is about the values that all of it is
//! put together from.
pub mod handed;
pub mod made_with;
pub mod parts;
pub mod plans;
pub mod replies;
pub mod runs;
pub mod settings;
pub mod starts;
