#![allow(non_snake_case)]

pub mod bests;
pub mod codes;
pub mod dispatch;
pub mod event;
pub mod header;
pub mod packet;
pub mod page;
pub mod session;
pub mod text;
pub mod wire;
