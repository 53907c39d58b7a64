//! Verified building blocks of small programs: a worker pool and the routing
//! of a web server, a line search, screens of drawable components, and
//! colours that know their names.

pub mod color;
pub mod minigrep;
pub mod pool;
pub mod screen;
pub mod server;
