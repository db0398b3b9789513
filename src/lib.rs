//! Decision core of a validating admission webhook: a request that carries
//! owner references is always admitted, any other is refused on the weekdays
//! that the exclusion calendar lists.
pub mod calendar;
pub mod decision;
pub mod json;
pub mod laws;
pub mod request;
pub mod verdict;
pub mod weekday;
