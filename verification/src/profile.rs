//! The durable records the bot works with, modelled as plain values.
//! The store that holds them is outside the library; its rows are handed
//! in and out as these types.

use vstd::prelude::*;

verus! {

/// A user's profile row: contact identity plus the physical attributes
/// collected during registration.
#[derive(Clone, Debug, PartialEq, Eq)]
pub struct Users {
    pub telegram_id: u64,
    pub name: String,
    pub email: Option<String>,
    pub phone_number: String,
    pub height: Option<i32>,
    pub weight: Option<i32>,
    pub age: Option<i32>,
}

/// The category a saved training plan belongs to.
#[derive(Clone, Copy, Debug, PartialEq, Eq, Structural)]
pub enum TrainingKind {
    Home,
    Gym,
}

/// One snapshot of the six body measurements, in centimetres.
#[derive(Clone, Copy, Debug, PartialEq, Eq, Structural)]
pub struct Sizes {
    pub chest: i32,
    pub waist: i32,
    pub hips: i32,
    pub hand_biceps: i32,
    pub leg_biceps: i32,
    pub calf: i32,
}

} // verus!
