//! Named colours of the CSS colour module, as `0xRRGGBB`.

use vstd::prelude::*;

verus! {

pub const AQUA: u32 = 0x00ffff;
pub const AQUAMARINE: u32 = 0x7fffd4;
pub const AZURE: u32 = 0xf0ffff;
pub const BEIGE: u32 = 0xf5f5dc;
pub const BLACK: u32 = 0x000000;
pub const BLUE: u32 = 0x0000ff;
pub const BROWN: u32 = 0xa52a2a;
pub const CADETBLUE: u32 = 0x5f9ea0;
pub const CHOCOLATE: u32 = 0xd2691e;
pub const CORAL: u32 = 0xff7f50;
pub const CORNFLOWERBLUE: u32 = 0x6495ed;
pub const CRIMSON: u32 = 0xdc143c;
pub const DARKCYAN: u32 = 0x008b8b;
pub const DARKKHAKI: u32 = 0xbdb76b;
pub const DARKORANGE: u32 = 0xff8c00;
pub const DARKSEAGREEN: u32 = 0x8fbc8f;
pub const DARKSLATEGRAY: u32 = 0x2f4f4f;
pub const DEEPSKYBLUE: u32 = 0x00bfff;
pub const DIMGRAY: u32 = 0x696969;
pub const DODGERBLUE: u32 = 0x1e90ff;
pub const FORESTGREEN: u32 = 0x228b22;
pub const GOLDENROD: u32 = 0xdaa520;
pub const GREEN: u32 = 0x008000;
pub const IVORY: u32 = 0xfffff0;
pub const LIGHTCORAL: u32 = 0xf08080;
pub const LIGHTGRAY: u32 = 0xd3d3d3;
pub const LIGHTGREEN: u32 = 0x90ee90;
pub const LIGHTPINK: u32 = 0xffb6c1;
pub const LIGHTSALMON: u32 = 0xffa07a;
pub const LIGHTSKYBLUE: u32 = 0x87cefa;
pub const ORANGE: u32 = 0xffa500;
pub const ORCHID: u32 = 0xda70d6;
pub const PINK: u32 = 0xffc0cb;
pub const RED: u32 = 0xff0000;
pub const ROYALBLUE: u32 = 0x4169e1;
pub const SEAGREEN: u32 = 0x2e8b57;
pub const SLATEGRAY: u32 = 0x708090;
pub const STEELBLUE: u32 = 0x4682b4;
pub const TAN: u32 = 0xd2b48c;
pub const TEAL: u32 = 0x008080;
pub const WHITE: u32 = 0xffffff;
pub const YELLOW: u32 = 0xffff00;

} // verus!
