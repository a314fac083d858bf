//! The request handlers, one module for each group of routes. A handler
//! takes what the request carries and returns the plan for it.
pub mod auth_routes;
pub mod business_review_routes;
pub mod business_routes;
pub mod message_routes;
pub mod payment_routes;
pub mod profile_routes;
pub mod rating_routes;
pub mod review_routes;
pub mod training_routes;
pub mod user_routes;
