//! A minimal doubling service: the request logic of `POST /api/double` and
//! `GET /`, and the startup configuration (listen port, CORS policy) built
//! from the values of the process environment.

pub mod config;
pub mod doubling;
pub mod origins;
