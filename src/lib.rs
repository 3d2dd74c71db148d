//! A race-to-first-result search and a partitioned, seed-determined
//! verification pass, with the decisions of both and of the run that
//! coordinates them stated and proved.

pub mod guess;
pub mod run;
pub mod verify;
