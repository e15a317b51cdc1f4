//! Decision logic of an adaptive cruise control: where the car ahead stands
//! relative to the point the controller aims for, which acceleration rule
//! follows from that, the bounded history of radar readings with the pairs
//! of readings that speeds are computed from, and one tick of a line of cars.
pub mod radar;
pub mod simulation;
pub mod structs;
