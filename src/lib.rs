//! The shell of a desktop and mobile application: the greeting command it can
//! expose to its front end, the plugins it attaches at startup and the order in
//! which it attaches them, and what follows once the framework's run loop ends.

pub mod bootstrap;
pub mod greet;
pub mod startup;
