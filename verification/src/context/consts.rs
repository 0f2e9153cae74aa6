//! The numbers by which the graphics API names its targets, buffers and
//! pixel layouts.

use vstd::prelude::*;

verus! {

pub const READ_FRAMEBUFFER: u32 = 0x8CA8;

pub const DRAW_FRAMEBUFFER: u32 = 0x8CA9;

pub const COLOR_ATTACHMENT0: u32 = 0x8CE0;

pub const DEPTH_BUFFER_BIT: u32 = 0x0000_0100;

pub const COLOR_BUFFER_BIT: u32 = 0x0000_4000;

pub const RGB: u32 = 0x1907;

pub const DEPTH_COMPONENT: u32 = 0x1902;

pub const UNSIGNED_BYTE: u32 = 0x1401;

pub const FLOAT: u32 = 0x1406;

} // verus!
