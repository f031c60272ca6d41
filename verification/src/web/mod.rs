//! The stages that a request passes on its way in and on its way out.

pub mod mw_auth;
pub mod mw_res_map;
