use crate::bytes::Bytes32;
use crate::clvm::{ser, serializable, Program};
use crate::bytes::array_to_vec;
use crate::hash::{read_template, template_ok, tree_hash};
use crate::puzzles::{
    CAT_PUZZLE_HASH, DEFAULT_CAT_MAKER_PUZZLE_HASH, P2_1_OF_N_HASH, PARTIAL_PUZZLE, PARTIAL_PUZZLE_HASH,
    REVOCABLE_CAT_MAKER_PUZZLE_HASH, REVOCATION_LAYER_HASH, XCH_CAT_MAKER_PUZZLE_HASH,
};
use vstd::prelude::*;

verus! {

/// The serialized token (CAT) layer.
pub const CAT_PUZZLE: [u8; 1672] = [
    0xff, 0x02, 0xff, 0xff, 0x01, 0xff, 0x02, 0xff, 0x5e, 0xff, 0xff, 0x04,
    0xff, 0x02, 0xff, 0xff, 0x04, 0xff, 0xff, 0x04, 0xff, 0x05, 0xff, 0xff,
    0x04, 0xff, 0xff, 0x0b, 0xff, 0x34, 0xff, 0x05, 0x80, 0xff, 0xff, 0x04,
    0xff, 0x0b, 0xff, 0x80, 0x80, 0x80, 0x80, 0xff, 0xff, 0x04, 0xff, 0xff,
    0x02, 0xff, 0x17, 0xff, 0x2f, 0x80, 0xff, 0xff, 0x04, 0xff, 0x5f, 0xff,
    0xff, 0x04, 0xff, 0xff, 0x02, 0xff, 0x2e, 0xff, 0xff, 0x04, 0xff, 0x02,
    0xff, 0xff, 0x04, 0xff, 0x17, 0xff, 0x80, 0x80, 0x80, 0x80, 0xff, 0xff,
    0x04, 0xff, 0xff, 0x02, 0xff, 0x2a, 0xff, 0xff, 0x04, 0xff, 0x02, 0xff,
    0xff, 0x04, 0xff, 0x82, 0x02, 0x7f, 0xff, 0xff, 0x04, 0xff, 0x82, 0x05,
    0x7f, 0xff, 0xff, 0x04, 0xff, 0x82, 0x0b, 0x7f, 0xff, 0x80, 0x80, 0x80,
    0x80, 0x80, 0x80, 0xff, 0xff, 0x04, 0xff, 0x81, 0xbf, 0xff, 0xff, 0x04,
    0xff, 0x82, 0x01, 0x7f, 0xff, 0xff, 0x04, 0xff, 0x82, 0x02, 0xff, 0xff,
    0xff, 0x04, 0xff, 0x82, 0x05, 0xff, 0xff, 0xff, 0x04, 0xff, 0x82, 0x0b,
    0xff, 0xff, 0x80, 0x80, 0x80, 0x80, 0x80, 0x80, 0x80, 0x80, 0x80, 0x80,
    0x80, 0x80, 0x80, 0xff, 0xff, 0x04, 0xff, 0xff, 0x01, 0xff, 0xff, 0xff,
    0xff, 0x3d, 0x46, 0xff, 0x02, 0xff, 0x33, 0x3c, 0xff, 0xff, 0x04, 0x01,
    0xff, 0x01, 0xff, 0x81, 0xcb, 0x02, 0xff, 0xff, 0xff, 0x20, 0xff, 0x02,
    0xff, 0xff, 0x03, 0xff, 0x05, 0xff, 0xff, 0x01, 0xff, 0x02, 0xff, 0x32,
    0xff, 0xff, 0x04, 0xff, 0x02, 0xff, 0xff, 0x04, 0xff, 0x0d, 0xff, 0xff,
    0x04, 0xff, 0xff, 0x0b, 0xff, 0x7c, 0xff, 0xff, 0x0b, 0xff, 0x34, 0xff,
    0x24, 0x80, 0xff, 0xff, 0x0b, 0xff, 0x7c, 0xff, 0xff, 0x0b, 0xff, 0x7c,
    0xff, 0xff, 0x0b, 0xff, 0x34, 0xff, 0x2c, 0x80, 0xff, 0x09, 0x80, 0xff,
    0xff, 0x0b, 0xff, 0x7c, 0xff, 0x0b, 0xff, 0xff, 0x0b, 0xff, 0x34, 0xff,
    0x80, 0x80, 0x80, 0x80, 0x80, 0xff, 0x80, 0x80, 0x80, 0x80, 0x80, 0xff,
    0xff, 0x01, 0x0b, 0x80, 0xff, 0x01, 0x80, 0xff, 0xff, 0x02, 0xff, 0xff,
    0x03, 0xff, 0xff, 0x22, 0xff, 0xff, 0x09, 0xff, 0xff, 0x0d, 0xff, 0x05,
    0x80, 0xff, 0x22, 0x80, 0xff, 0xff, 0x09, 0xff, 0xff, 0x0d, 0xff, 0x0b,
    0x80, 0xff, 0x22, 0x80, 0xff, 0xff, 0x15, 0xff, 0x17, 0xff, 0xff, 0x01,
    0x81, 0xff, 0x80, 0x80, 0xff, 0xff, 0x01, 0xff, 0x0b, 0xff, 0x05, 0xff,
    0x0b, 0xff, 0x17, 0x80, 0xff, 0xff, 0x01, 0xff, 0x08, 0x80, 0x80, 0xff,
    0x01, 0x80, 0xff, 0xff, 0x02, 0xff, 0xff, 0x03, 0xff, 0x0b, 0xff, 0xff,
    0x01, 0xff, 0x02, 0xff, 0xff, 0x03, 0xff, 0xff, 0x09, 0xff, 0xff, 0x02,
    0xff, 0x2e, 0xff, 0xff, 0x04, 0xff, 0x02, 0xff, 0xff, 0x04, 0xff, 0x13,
    0xff, 0x80, 0x80, 0x80, 0x80, 0xff, 0x82, 0x0b, 0x9f, 0x80, 0xff, 0xff,
    0x01, 0xff, 0x02, 0xff, 0x56, 0xff, 0xff, 0x04, 0xff, 0x02, 0xff, 0xff,
    0x04, 0xff, 0xff, 0x02, 0xff, 0x13, 0xff, 0xff, 0x04, 0xff, 0x5f, 0xff,
    0xff, 0x04, 0xff, 0x17, 0xff, 0xff, 0x04, 0xff, 0x2f, 0xff, 0xff, 0x04,
    0xff, 0x81, 0xbf, 0xff, 0xff, 0x04, 0xff, 0x82, 0x01, 0x7f, 0xff, 0xff,
    0x04, 0xff, 0x1b, 0xff, 0x80, 0x80, 0x80, 0x80, 0x80, 0x80, 0x80, 0x80,
    0xff, 0xff, 0x04, 0xff, 0x82, 0x01, 0x7f, 0xff, 0x80, 0x80, 0x80, 0x80,
    0x80, 0xff, 0xff, 0x01, 0xff, 0x08, 0x80, 0x80, 0xff, 0x01, 0x80, 0xff,
    0xff, 0x01, 0xff, 0x02, 0xff, 0xff, 0x03, 0xff, 0x17, 0xff, 0xff, 0x01,
    0xff, 0x02, 0xff, 0xff, 0x03, 0xff, 0xff, 0x20, 0xff, 0x81, 0xbf, 0x80,
    0xff, 0xff, 0x01, 0x82, 0x01, 0x7f, 0xff, 0xff, 0x01, 0xff, 0x08, 0x80,
    0x80, 0xff, 0x01, 0x80, 0xff, 0xff, 0x01, 0xff, 0x08, 0x80, 0x80, 0xff,
    0x01, 0x80, 0x80, 0xff, 0x01, 0x80, 0xff, 0x04, 0xff, 0xff, 0x04, 0xff,
    0x05, 0xff, 0x27, 0x80, 0xff, 0xff, 0x04, 0xff, 0xff, 0x10, 0xff, 0x0b,
    0xff, 0x57, 0x80, 0xff, 0x77, 0x80, 0x80, 0xff, 0xff, 0xff, 0x02, 0xff,
    0xff, 0x03, 0xff, 0x05, 0xff, 0xff, 0x01, 0xff, 0x02, 0xff, 0xff, 0x03,
    0xff, 0xff, 0x09, 0xff, 0xff, 0x02, 0xff, 0xff, 0x03, 0xff, 0xff, 0x09,
    0xff, 0x11, 0xff, 0x58, 0x80, 0xff, 0xff, 0x01, 0x59, 0xff, 0x80, 0x80,
    0xff, 0x01, 0x80, 0xff, 0xff, 0x01, 0x81, 0x8f, 0x80, 0xff, 0xff, 0x01,
    0xff, 0x02, 0xff, 0x26, 0xff, 0xff, 0x04, 0xff, 0x02, 0xff, 0xff, 0x04,
    0xff, 0x0d, 0xff, 0xff, 0x04, 0xff, 0x0b, 0xff, 0xff, 0x04, 0xff, 0xff,
    0x04, 0xff, 0x81, 0xb9, 0xff, 0x82, 0x01, 0x79, 0x80, 0xff, 0x80, 0x80,
    0x80, 0x80, 0x80, 0x80, 0xff, 0xff, 0x01, 0xff, 0x02, 0xff, 0x7a, 0xff,
    0xff, 0x04, 0xff, 0x02, 0xff, 0xff, 0x04, 0xff, 0xff, 0x02, 0xff, 0xff,
    0x03, 0xff, 0xff, 0x09, 0xff, 0x11, 0xff, 0x58, 0x80, 0xff, 0xff, 0x01,
    0xff, 0x04, 0xff, 0x58, 0xff, 0xff, 0x04, 0xff, 0xff, 0x02, 0xff, 0x76,
    0xff, 0xff, 0x04, 0xff, 0x02, 0xff, 0xff, 0x04, 0xff, 0x13, 0xff, 0xff,
    0x04, 0xff, 0x29, 0xff, 0xff, 0x04, 0xff, 0xff, 0x0b, 0xff, 0x34, 0xff,
    0x5b, 0x80, 0xff, 0xff, 0x04, 0xff, 0x2b, 0xff, 0x80, 0x80, 0x80, 0x80,
    0x80, 0x80, 0x80, 0xff, 0x39, 0x80, 0x80, 0xff, 0xff, 0x01, 0xff, 0x02,
    0xff, 0xff, 0x03, 0xff, 0xff, 0x09, 0xff, 0x11, 0xff, 0x78, 0x80, 0xff,
    0xff, 0x01, 0xff, 0x02, 0xff, 0xff, 0x03, 0xff, 0xff, 0x20, 0xff, 0xff,
    0x02, 0xff, 0xff, 0x03, 0xff, 0xff, 0x09, 0xff, 0xff, 0x01, 0x21, 0xff,
    0xff, 0x0d, 0xff, 0x29, 0x80, 0x80, 0xff, 0xff, 0x01, 0xff, 0x02, 0xff,
    0xff, 0x03, 0xff, 0xff, 0x09, 0xff, 0xff, 0x0c, 0xff, 0x29, 0xff, 0x80,
    0xff, 0x34, 0x80, 0xff, 0x5c, 0x80, 0xff, 0xff, 0x01, 0xff, 0x01, 0x01,
    0xff, 0x80, 0x80, 0xff, 0x01, 0x80, 0xff, 0x80, 0x80, 0xff, 0x01, 0x80,
    0x80, 0xff, 0xff, 0x01, 0x09, 0xff, 0xff, 0x01, 0xff, 0x08, 0x80, 0x80,
    0xff, 0x01, 0x80, 0xff, 0xff, 0x01, 0x09, 0x80, 0xff, 0x01, 0x80, 0x80,
    0xff, 0x01, 0x80, 0xff, 0xff, 0x04, 0xff, 0xff, 0x02, 0xff, 0xff, 0x03,
    0xff, 0xff, 0x09, 0xff, 0x11, 0xff, 0x58, 0x80, 0xff, 0xff, 0x01, 0x59,
    0xff, 0x80, 0x80, 0xff, 0x01, 0x80, 0xff, 0xff, 0x04, 0xff, 0xff, 0x02,
    0xff, 0x26, 0xff, 0xff, 0x04, 0xff, 0x02, 0xff, 0xff, 0x04, 0xff, 0x0d,
    0xff, 0xff, 0x04, 0xff, 0x0b, 0xff, 0xff, 0x04, 0xff, 0x17, 0xff, 0x80,
    0x80, 0x80, 0x80, 0x80, 0x80, 0xff, 0x80, 0x80, 0x80, 0x80, 0x80, 0x80,
    0x80, 0xff, 0x01, 0x80, 0xff, 0xff, 0x01, 0xff, 0x04, 0xff, 0x80, 0xff,
    0xff, 0x04, 0xff, 0x80, 0xff, 0x17, 0x80, 0x80, 0x80, 0xff, 0x01, 0x80,
    0xff, 0xff, 0x02, 0xff, 0xff, 0x03, 0xff, 0x05, 0xff, 0xff, 0x01, 0xff,
    0x04, 0xff, 0x09, 0xff, 0xff, 0x02, 0xff, 0x56, 0xff, 0xff, 0x04, 0xff,
    0x02, 0xff, 0xff, 0x04, 0xff, 0x0d, 0xff, 0xff, 0x04, 0xff, 0x0b, 0xff,
    0x80, 0x80, 0x80, 0x80, 0x80, 0x80, 0xff, 0xff, 0x01, 0x0b, 0x80, 0xff,
    0x01, 0x80, 0xff, 0x0b, 0xff, 0x7c, 0xff, 0xff, 0x0b, 0xff, 0x34, 0xff,
    0x28, 0x80, 0xff, 0xff, 0x0b, 0xff, 0x7c, 0xff, 0xff, 0x0b, 0xff, 0x7c,
    0xff, 0xff, 0x0b, 0xff, 0x34, 0xff, 0x2c, 0x80, 0xff, 0x05, 0x80, 0xff,
    0xff, 0x0b, 0xff, 0x7c, 0xff, 0xff, 0x02, 0xff, 0x32, 0xff, 0xff, 0x04,
    0xff, 0x02, 0xff, 0xff, 0x04, 0xff, 0x07, 0xff, 0xff, 0x04, 0xff, 0xff,
    0x0b, 0xff, 0x34, 0xff, 0x34, 0x80, 0xff, 0x80, 0x80, 0x80, 0x80, 0x80,
    0xff, 0xff, 0x0b, 0xff, 0x34, 0xff, 0x80, 0x80, 0x80, 0x80, 0x80, 0xff,
    0xff, 0x02, 0xff, 0xff, 0x03, 0xff, 0xff, 0x07, 0xff, 0x05, 0x80, 0xff,
    0xff, 0x01, 0xff, 0x0b, 0xff, 0xff, 0x01, 0x02, 0xff, 0xff, 0x02, 0xff,
    0x2e, 0xff, 0xff, 0x04, 0xff, 0x02, 0xff, 0xff, 0x04, 0xff, 0x09, 0xff,
    0x80, 0x80, 0x80, 0x80, 0xff, 0xff, 0x02, 0xff, 0x2e, 0xff, 0xff, 0x04,
    0xff, 0x02, 0xff, 0xff, 0x04, 0xff, 0x0d, 0xff, 0x80, 0x80, 0x80, 0x80,
    0x80, 0xff, 0xff, 0x01, 0xff, 0x0b, 0xff, 0xff, 0x01, 0x01, 0xff, 0x05,
    0x80, 0x80, 0xff, 0x01, 0x80, 0xff, 0xff, 0x04, 0xff, 0xff, 0x04, 0xff,
    0x30, 0xff, 0xff, 0x04, 0xff, 0x5f, 0xff, 0x80, 0x80, 0x80, 0xff, 0xff,
    0x02, 0xff, 0x7e, 0xff, 0xff, 0x04, 0xff, 0x02, 0xff, 0xff, 0x04, 0xff,
    0xff, 0x04, 0xff, 0xff, 0x04, 0xff, 0x2f, 0xff, 0x05, 0x80, 0xff, 0xff,
    0x04, 0xff, 0x5f, 0xff, 0x82, 0x01, 0x7f, 0x80, 0x80, 0xff, 0xff, 0x04,
    0xff, 0xff, 0x02, 0xff, 0x26, 0xff, 0xff, 0x04, 0xff, 0x02, 0xff, 0xff,
    0x04, 0xff, 0x0b, 0xff, 0xff, 0x04, 0xff, 0x05, 0xff, 0xff, 0x01, 0xff,
    0x80, 0x80, 0x80, 0x80, 0x80, 0x80, 0xff, 0xff, 0x04, 0xff, 0x17, 0xff,
    0xff, 0x04, 0xff, 0x81, 0xbf, 0xff, 0xff, 0x04, 0xff, 0x82, 0x01, 0x7f,
    0xff, 0xff, 0x04, 0xff, 0xff, 0x02, 0xff, 0x2a, 0xff, 0xff, 0x04, 0xff,
    0x02, 0xff, 0xff, 0x04, 0xff, 0x82, 0x04, 0xff, 0xff, 0xff, 0x04, 0xff,
    0xff, 0x02, 0xff, 0x76, 0xff, 0xff, 0x04, 0xff, 0x02, 0xff, 0xff, 0x04,
    0xff, 0x09, 0xff, 0xff, 0x04, 0xff, 0x82, 0x0a, 0xff, 0xff, 0xff, 0x04,
    0xff, 0xff, 0x0b, 0xff, 0x34, 0xff, 0x2d, 0x80, 0xff, 0xff, 0x04, 0xff,
    0x15, 0xff, 0x80, 0x80, 0x80, 0x80, 0x80, 0x80, 0x80, 0xff, 0xff, 0x04,
    0xff, 0x82, 0x16, 0xff, 0xff, 0x80, 0x80, 0x80, 0x80, 0x80, 0x80, 0xff,
    0xff, 0x04, 0xff, 0x82, 0x05, 0xff, 0xff, 0xff, 0x04, 0xff, 0x82, 0x0b,
    0xff, 0xff, 0x80, 0x80, 0x80, 0x80, 0x80, 0x80, 0x80, 0x80, 0x80, 0x80,
    0x80, 0x80, 0xff, 0x02, 0xff, 0x5a, 0xff, 0xff, 0x04, 0xff, 0x02, 0xff,
    0xff, 0x04, 0xff, 0x5f, 0xff, 0xff, 0x04, 0xff, 0x3b, 0xff, 0xff, 0x04,
    0xff, 0xff, 0x02, 0xff, 0xff, 0x03, 0xff, 0x17, 0xff, 0xff, 0x01, 0xff,
    0x09, 0xff, 0x2d, 0xff, 0xff, 0x02, 0xff, 0x2a, 0xff, 0xff, 0x04, 0xff,
    0x02, 0xff, 0xff, 0x04, 0xff, 0x27, 0xff, 0xff, 0x04, 0xff, 0xff, 0x02,
    0xff, 0x76, 0xff, 0xff, 0x04, 0xff, 0x02, 0xff, 0xff, 0x04, 0xff, 0x29,
    0xff, 0xff, 0x04, 0xff, 0x57, 0xff, 0xff, 0x04, 0xff, 0xff, 0x0b, 0xff,
    0x34, 0xff, 0x81, 0xb9, 0x80, 0xff, 0xff, 0x04, 0xff, 0x59, 0xff, 0x80,
    0x80, 0x80, 0x80, 0x80, 0x80, 0x80, 0xff, 0xff, 0x04, 0xff, 0x81, 0xb7,
    0xff, 0x80, 0x80, 0x80, 0x80, 0x80, 0x80, 0x80, 0xff, 0x80, 0x80, 0xff,
    0x01, 0x80, 0xff, 0xff, 0x04, 0xff, 0x17, 0xff, 0xff, 0x04, 0xff, 0x05,
    0xff, 0xff, 0x04, 0xff, 0x82, 0x02, 0xff, 0xff, 0xff, 0x04, 0xff, 0xff,
    0x04, 0xff, 0xff, 0x04, 0xff, 0x78, 0xff, 0xff, 0x04, 0xff, 0xff, 0x0e,
    0xff, 0x5c, 0xff, 0xff, 0x02, 0xff, 0x2e, 0xff, 0xff, 0x04, 0xff, 0x02,
    0xff, 0xff, 0x04, 0xff, 0xff, 0x04, 0xff, 0x2f, 0xff, 0xff, 0x04, 0xff,
    0x82, 0x01, 0x7f, 0xff, 0x80, 0x80, 0x80, 0xff, 0x80, 0x80, 0x80, 0x80,
    0x80, 0xff, 0x80, 0x80, 0x80, 0xff, 0xff, 0x04, 0xff, 0xff, 0x04, 0xff,
    0x20, 0xff, 0xff, 0x04, 0xff, 0xff, 0x0b, 0xff, 0x81, 0xbf, 0xff, 0x5c,
    0xff, 0xff, 0x02, 0xff, 0x2e, 0xff, 0xff, 0x04, 0xff, 0x02, 0xff, 0xff,
    0x04, 0xff, 0xff, 0x04, 0xff, 0x15, 0xff, 0xff, 0x04, 0xff, 0xff, 0x10,
    0xff, 0x82, 0x01, 0x7f, 0xff, 0xff, 0x11, 0xff, 0x82, 0x02, 0xdf, 0xff,
    0x2b, 0x80, 0xff, 0x82, 0x02, 0xff, 0x80, 0xff, 0x80, 0x80, 0x80, 0xff,
    0x80, 0x80, 0x80, 0x80, 0x80, 0xff, 0x80, 0x80, 0x80, 0xff, 0x13, 0x80,
    0x80, 0xff, 0x80, 0x80, 0x80, 0x80, 0x80, 0x80, 0x80, 0x80, 0x80, 0x80,
    0xff, 0x01, 0x80, 0x80,
];

/// The serialized revocation layer.
pub const REVOCATION_LAYER: [u8; 653] = [
    0xff, 0x02, 0xff, 0xff, 0x01, 0xff, 0x02, 0xff, 0xff, 0x03, 0xff, 0x2f,
    0xff, 0xff, 0x01, 0xff, 0x02, 0xff, 0xff, 0x03, 0xff, 0xff, 0x09, 0xff,
    0x0b, 0xff, 0xff, 0x02, 0xff, 0x16, 0xff, 0xff, 0x04, 0xff, 0x02, 0xff,
    0xff, 0x04, 0xff, 0x5f, 0xff, 0x80, 0x80, 0x80, 0x80, 0x80, 0xff, 0xff,
    0x01, 0xff, 0x02, 0xff, 0x5f, 0xff, 0x81, 0xbf, 0x80, 0xff, 0xff, 0x01,
    0xff, 0x08, 0x80, 0x80, 0xff, 0x01, 0x80, 0xff, 0xff, 0x01, 0xff, 0x02,
    0xff, 0xff, 0x03, 0xff, 0xff, 0x09, 0xff, 0x17, 0xff, 0xff, 0x02, 0xff,
    0x16, 0xff, 0xff, 0x04, 0xff, 0x02, 0xff, 0xff, 0x04, 0xff, 0x5f, 0xff,
    0x80, 0x80, 0x80, 0x80, 0x80, 0xff, 0xff, 0x01, 0xff, 0x02, 0xff, 0x1e,
    0xff, 0xff, 0x04, 0xff, 0x02, 0xff, 0xff, 0x04, 0xff, 0x05, 0xff, 0xff,
    0x04, 0xff, 0x0b, 0xff, 0xff, 0x04, 0xff, 0xff, 0x02, 0xff, 0x5f, 0xff,
    0x81, 0xbf, 0x80, 0xff, 0x80, 0x80, 0x80, 0x80, 0x80, 0x80, 0xff, 0xff,
    0x01, 0xff, 0x08, 0x80, 0x80, 0xff, 0x01, 0x80, 0x80, 0xff, 0x01, 0x80,
    0xff, 0xff, 0x04, 0xff, 0xff, 0x01, 0xff, 0xff, 0x33, 0xff, 0x01, 0x02,
    0xff, 0xff, 0xff, 0xa0, 0x4b, 0xf5, 0x12, 0x2f, 0x34, 0x45, 0x54, 0xc5,
    0x3b, 0xde, 0x2e, 0xbb, 0x8c, 0xd2, 0xb7, 0xe3, 0xd1, 0x60, 0x0a, 0xd6,
    0x31, 0xc3, 0x85, 0xa5, 0xd7, 0xcc, 0xe2, 0x3c, 0x77, 0x85, 0x45, 0x9a,
    0xa0, 0x9d, 0xcf, 0x97, 0xa1, 0x84, 0xf3, 0x26, 0x23, 0xd1, 0x1a, 0x73,
    0x12, 0x4c, 0xeb, 0x99, 0xa5, 0x70, 0x9b, 0x08, 0x37, 0x21, 0xe8, 0x78,
    0xa1, 0x6d, 0x78, 0xf5, 0x96, 0x71, 0x8b, 0xa7, 0xb2, 0xff, 0xa1, 0x02,
    0xa1, 0x28, 0x71, 0xfe, 0xe2, 0x10, 0xfb, 0x86, 0x19, 0x29, 0x1e, 0xae,
    0xa1, 0x94, 0x58, 0x1c, 0xbd, 0x25, 0x31, 0xe4, 0xb2, 0x37, 0x59, 0xd2,
    0x25, 0xf6, 0x80, 0x69, 0x23, 0xf6, 0x32, 0x22, 0xa1, 0x02, 0xa8, 0xd5,
    0xdd, 0x63, 0xfb, 0xa4, 0x71, 0xeb, 0xcb, 0x1f, 0x3e, 0x8f, 0x7c, 0x1e,
    0x18, 0x79, 0xb7, 0x15, 0x2a, 0x6e, 0x72, 0x98, 0xa9, 0x1c, 0xe1, 0x19,
    0xa6, 0x34, 0x00, 0xad, 0xe7, 0xc5, 0xff, 0xff, 0x02, 0xff, 0xff, 0x03,
    0xff, 0xff, 0x07, 0xff, 0x05, 0x80, 0xff, 0xff, 0x01, 0xff, 0x0b, 0xff,
    0xff, 0x01, 0x02, 0xff, 0xff, 0x02, 0xff, 0x16, 0xff, 0xff, 0x04, 0xff,
    0x02, 0xff, 0xff, 0x04, 0xff, 0x09, 0xff, 0x80, 0x80, 0x80, 0x80, 0xff,
    0xff, 0x02, 0xff, 0x16, 0xff, 0xff, 0x04, 0xff, 0x02, 0xff, 0xff, 0x04,
    0xff, 0x0d, 0xff, 0x80, 0x80, 0x80, 0x80, 0x80, 0xff, 0xff, 0x01, 0xff,
    0x0b, 0xff, 0xff, 0x01, 0x01, 0xff, 0x05, 0x80, 0x80, 0xff, 0x01, 0x80,
    0xff, 0x02, 0xff, 0xff, 0x03, 0xff, 0x17, 0xff, 0xff, 0x01, 0xff, 0x02,
    0xff, 0xff, 0x03, 0xff, 0xff, 0x09, 0xff, 0x47, 0xff, 0x08, 0x80, 0xff,
    0xff, 0x01, 0xff, 0x04, 0xff, 0xff, 0x04, 0xff, 0x08, 0xff, 0xff, 0x04,
    0xff, 0xff, 0x0b, 0xff, 0x2a, 0xff, 0xff, 0x0b, 0xff, 0x1c, 0xff, 0xff,
    0x0b, 0xff, 0x1c, 0xff, 0x32, 0xff, 0x05, 0x80, 0xff, 0xff, 0x0b, 0xff,
    0x1c, 0xff, 0xff, 0x0b, 0xff, 0x3a, 0xff, 0xff, 0x0b, 0xff, 0x1c, 0xff,
    0xff, 0x0b, 0xff, 0x1c, 0xff, 0x32, 0xff, 0xff, 0x0b, 0xff, 0x14, 0xff,
    0x05, 0x80, 0x80, 0xff, 0xff, 0x0b, 0xff, 0x1c, 0xff, 0xff, 0x0b, 0xff,
    0x3a, 0xff, 0xff, 0x0b, 0xff, 0x1c, 0xff, 0xff, 0x0b, 0xff, 0x1c, 0xff,
    0x32, 0xff, 0xff, 0x0b, 0xff, 0x14, 0xff, 0x0b, 0x80, 0x80, 0xff, 0xff,
    0x0b, 0xff, 0x1c, 0xff, 0xff, 0x0b, 0xff, 0x3a, 0xff, 0xff, 0x0b, 0xff,
    0x1c, 0xff, 0xff, 0x0b, 0xff, 0x1c, 0xff, 0x32, 0xff, 0xff, 0x0b, 0xff,
    0x14, 0xff, 0x81, 0xa7, 0x80, 0x80, 0xff, 0xff, 0x0b, 0xff, 0x1c, 0xff,
    0x32, 0xff, 0x22, 0x80, 0x80, 0x80, 0xff, 0x22, 0x80, 0x80, 0x80, 0xff,
    0x22, 0x80, 0x80, 0x80, 0xff, 0x22, 0x80, 0x80, 0x80, 0xff, 0x81, 0xe7,
    0x80, 0x80, 0xff, 0xff, 0x02, 0xff, 0x1e, 0xff, 0xff, 0x04, 0xff, 0x02,
    0xff, 0xff, 0x04, 0xff, 0x05, 0xff, 0xff, 0x04, 0xff, 0x0b, 0xff, 0xff,
    0x04, 0xff, 0x37, 0xff, 0x80, 0x80, 0x80, 0x80, 0x80, 0x80, 0x80, 0xff,
    0xff, 0x01, 0xff, 0x04, 0xff, 0x27, 0xff, 0xff, 0x02, 0xff, 0x1e, 0xff,
    0xff, 0x04, 0xff, 0x02, 0xff, 0xff, 0x04, 0xff, 0x05, 0xff, 0xff, 0x04,
    0xff, 0x0b, 0xff, 0xff, 0x04, 0xff, 0x37, 0xff, 0x80, 0x80, 0x80, 0x80,
    0x80, 0x80, 0x80, 0x80, 0xff, 0x01, 0x80, 0xff, 0x80, 0x80, 0xff, 0x01,
    0x80, 0xff, 0x01, 0x80, 0x80,
];

/// The serialized one-of-many branch selector.
pub const P2_1_OF_N: [u8; 280] = [
    0xff, 0x02, 0xff, 0xff, 0x01, 0xff, 0x02, 0xff, 0xff, 0x03, 0xff, 0xff,
    0x09, 0xff, 0x05, 0xff, 0xff, 0x02, 0xff, 0x06, 0xff, 0xff, 0x04, 0xff,
    0x02, 0xff, 0xff, 0x04, 0xff, 0xff, 0x0b, 0xff, 0xff, 0x01, 0x01, 0xff,
    0xff, 0x02, 0xff, 0x04, 0xff, 0xff, 0x04, 0xff, 0x02, 0xff, 0xff, 0x04,
    0xff, 0x17, 0xff, 0x80, 0x80, 0x80, 0x80, 0x80, 0xff, 0xff, 0x04, 0xff,
    0x0b, 0xff, 0x80, 0x80, 0x80, 0x80, 0x80, 0x80, 0xff, 0xff, 0x01, 0xff,
    0x02, 0xff, 0x17, 0xff, 0x2f, 0x80, 0xff, 0xff, 0x01, 0xff, 0x08, 0x80,
    0x80, 0xff, 0x01, 0x80, 0xff, 0xff, 0x04, 0xff, 0xff, 0x01, 0xff, 0xff,
    0x02, 0xff, 0xff, 0x03, 0xff, 0xff, 0x07, 0xff, 0x05, 0x80, 0xff, 0xff,
    0x01, 0xff, 0x0b, 0xff, 0xff, 0x01, 0x02, 0xff, 0xff, 0x02, 0xff, 0x04,
    0xff, 0xff, 0x04, 0xff, 0x02, 0xff, 0xff, 0x04, 0xff, 0x09, 0xff, 0x80,
    0x80, 0x80, 0x80, 0xff, 0xff, 0x02, 0xff, 0x04, 0xff, 0xff, 0x04, 0xff,
    0x02, 0xff, 0xff, 0x04, 0xff, 0x0d, 0xff, 0x80, 0x80, 0x80, 0x80, 0x80,
    0xff, 0xff, 0x01, 0xff, 0x0b, 0xff, 0xff, 0x01, 0x01, 0xff, 0x05, 0x80,
    0x80, 0xff, 0x01, 0x80, 0xff, 0x02, 0xff, 0xff, 0x03, 0xff, 0x1b, 0xff,
    0xff, 0x01, 0xff, 0x02, 0xff, 0x06, 0xff, 0xff, 0x04, 0xff, 0x02, 0xff,
    0xff, 0x04, 0xff, 0xff, 0x02, 0xff, 0xff, 0x03, 0xff, 0xff, 0x18, 0xff,
    0xff, 0x01, 0x01, 0xff, 0x13, 0x80, 0xff, 0xff, 0x01, 0xff, 0x0b, 0xff,
    0xff, 0x01, 0x02, 0xff, 0x2b, 0xff, 0x05, 0x80, 0xff, 0xff, 0x01, 0xff,
    0x0b, 0xff, 0xff, 0x01, 0x02, 0xff, 0x05, 0xff, 0x2b, 0x80, 0x80, 0xff,
    0x01, 0x80, 0xff, 0xff, 0x04, 0xff, 0xff, 0x04, 0xff, 0xff, 0x17, 0xff,
    0x13, 0xff, 0xff, 0x01, 0x81, 0xff, 0x80, 0xff, 0x3b, 0x80, 0xff, 0x80,
    0x80, 0x80, 0x80, 0x80, 0xff, 0xff, 0x01, 0x05, 0x80, 0xff, 0x01, 0x80,
    0xff, 0x01, 0x80, 0x80,
];

/// The serialized asset-maker puzzle used when the offered asset is the native currency.
pub const XCH_CAT_MAKER_PUZZLE: [u8; 1] = [
    0x02,
];

/// The serialized asset-maker puzzle of a plain token.
pub const DEFAULT_CAT_MAKER_PUZZLE: [u8; 217] = [
    0xff, 0x02, 0xff, 0xff, 0x01, 0xff, 0x0b, 0xff, 0xff, 0x01, 0x02, 0xff,
    0xff, 0x0b, 0xff, 0xff, 0x01, 0x82, 0x01, 0x02, 0x80, 0xff, 0xff, 0x0b,
    0xff, 0xff, 0x01, 0x02, 0xff, 0xff, 0x0b, 0xff, 0xff, 0x01, 0x02, 0xff,
    0xff, 0x0b, 0xff, 0xff, 0x01, 0x82, 0x01, 0x01, 0x80, 0xff, 0x05, 0x80,
    0xff, 0xff, 0x0b, 0xff, 0xff, 0x01, 0x02, 0xff, 0xff, 0x02, 0xff, 0x02,
    0xff, 0xff, 0x04, 0xff, 0x02, 0xff, 0xff, 0x04, 0xff, 0xff, 0x0b, 0xff,
    0xff, 0x01, 0x01, 0xff, 0x05, 0x80, 0xff, 0xff, 0x04, 0xff, 0x0b, 0xff,
    0xff, 0x04, 0xff, 0x17, 0xff, 0x80, 0x80, 0x80, 0x80, 0x80, 0x80, 0xff,
    0xff, 0x0b, 0xff, 0xff, 0x01, 0x01, 0x80, 0x80, 0x80, 0x80, 0xff, 0xff,
    0x04, 0xff, 0xff, 0x01, 0xff, 0x02, 0xff, 0xff, 0x03, 0xff, 0x03, 0xff,
    0xff, 0x01, 0xff, 0x0b, 0xff, 0xff, 0x01, 0x02, 0xff, 0xff, 0x0b, 0xff,
    0xff, 0x01, 0x82, 0x01, 0x04, 0x80, 0xff, 0xff, 0x0b, 0xff, 0xff, 0x01,
    0x02, 0xff, 0xff, 0x0b, 0xff, 0xff, 0x01, 0x02, 0xff, 0xff, 0x0b, 0xff,
    0xff, 0x01, 0x82, 0x01, 0x01, 0x80, 0xff, 0x05, 0x80, 0xff, 0xff, 0x0b,
    0xff, 0xff, 0x01, 0x02, 0xff, 0xff, 0x02, 0xff, 0x02, 0xff, 0xff, 0x04,
    0xff, 0x02, 0xff, 0x07, 0x80, 0x80, 0xff, 0xff, 0x0b, 0xff, 0xff, 0x01,
    0x01, 0x80, 0x80, 0x80, 0x80, 0xff, 0xff, 0x01, 0xff, 0x0b, 0xff, 0xff,
    0x01, 0x82, 0x01, 0x01, 0x80, 0x80, 0xff, 0x01, 0x80, 0xff, 0x01, 0x80,
    0x80,
];

/// The serialized asset-maker puzzle of a revocable token.
pub const REVOCABLE_CAT_MAKER_PUZZLE: [u8; 295] = [
    0xff, 0x02, 0xff, 0xff, 0x01, 0xff, 0x02, 0xff, 0x04, 0xff, 0xff, 0x04,
    0xff, 0x06, 0xff, 0xff, 0x04, 0xff, 0x09, 0xff, 0xff, 0x04, 0xff, 0xff,
    0x0b, 0xff, 0xff, 0x01, 0x01, 0xff, 0x09, 0x80, 0xff, 0xff, 0x04, 0xff,
    0x0b, 0xff, 0xff, 0x04, 0xff, 0xff, 0x02, 0xff, 0x04, 0xff, 0xff, 0x04,
    0xff, 0x06, 0xff, 0xff, 0x04, 0xff, 0x15, 0xff, 0xff, 0x04, 0xff, 0xff,
    0x0b, 0xff, 0xff, 0x01, 0x01, 0xff, 0x15, 0x80, 0xff, 0xff, 0x04, 0xff,
    0x1d, 0xff, 0xff, 0x04, 0xff, 0xff, 0x0b, 0xff, 0xff, 0x01, 0x01, 0xff,
    0x17, 0x80, 0xff, 0x80, 0x80, 0x80, 0x80, 0x80, 0x80, 0x80, 0xff, 0x80,
    0x80, 0x80, 0x80, 0x80, 0x80, 0x80, 0xff, 0xff, 0x04, 0xff, 0xff, 0x04,
    0xff, 0xff, 0x01, 0xff, 0x0b, 0xff, 0xff, 0x01, 0x02, 0xff, 0xff, 0x0b,
    0xff, 0xff, 0x01, 0x82, 0x01, 0x02, 0x80, 0xff, 0xff, 0x0b, 0xff, 0xff,
    0x01, 0x02, 0xff, 0xff, 0x0b, 0xff, 0xff, 0x01, 0x02, 0xff, 0xff, 0x0b,
    0xff, 0xff, 0x01, 0x82, 0x01, 0x01, 0x80, 0xff, 0x05, 0x80, 0xff, 0xff,
    0x0b, 0xff, 0xff, 0x01, 0x02, 0xff, 0xff, 0x02, 0xff, 0x02, 0xff, 0xff,
    0x04, 0xff, 0x02, 0xff, 0x07, 0x80, 0x80, 0xff, 0xff, 0x0b, 0xff, 0xff,
    0x01, 0x01, 0x80, 0x80, 0x80, 0x80, 0xff, 0xff, 0x01, 0xff, 0x02, 0xff,
    0xff, 0x03, 0xff, 0x03, 0xff, 0xff, 0x01, 0xff, 0x0b, 0xff, 0xff, 0x01,
    0x02, 0xff, 0xff, 0x0b, 0xff, 0xff, 0x01, 0x82, 0x01, 0x04, 0x80, 0xff,
    0xff, 0x0b, 0xff, 0xff, 0x01, 0x02, 0xff, 0xff, 0x0b, 0xff, 0xff, 0x01,
    0x02, 0xff, 0xff, 0x0b, 0xff, 0xff, 0x01, 0x82, 0x01, 0x01, 0x80, 0xff,
    0x05, 0x80, 0xff, 0xff, 0x0b, 0xff, 0xff, 0x01, 0x02, 0xff, 0xff, 0x02,
    0xff, 0x02, 0xff, 0xff, 0x04, 0xff, 0x02, 0xff, 0x07, 0x80, 0x80, 0xff,
    0xff, 0x0b, 0xff, 0xff, 0x01, 0x01, 0x80, 0x80, 0x80, 0x80, 0xff, 0xff,
    0x01, 0xff, 0x0b, 0xff, 0xff, 0x01, 0x82, 0x01, 0x01, 0x80, 0x80, 0xff,
    0x01, 0x80, 0x80, 0xff, 0x01, 0x80, 0x80,
];

/// The programs that an offer coin's spends reveal: the wrapping layers, the
/// branch selector, the settlement template and the asset makers, read once
/// and checked against their published hashes.
#[derive(Debug)]
pub struct PuzzleTemplates {
    pub cat: Program,
    pub revocation: Program,
    pub one_of_many: Program,
    pub partial: Program,
    pub xch_maker: Program,
    pub default_maker: Program,
    pub revocable_maker: Program,
}

impl PuzzleTemplates {
    /// Each template hashes to its published hash and can be serialized.
    pub open spec fn wf(&self) -> bool {
        &&& serializable(self.cat.tree()) && tree_hash(self.cat.tree()) == CAT_PUZZLE_HASH@
        &&& serializable(self.revocation.tree()) && tree_hash(self.revocation.tree()) == REVOCATION_LAYER_HASH@
        &&& serializable(self.one_of_many.tree()) && tree_hash(self.one_of_many.tree()) == P2_1_OF_N_HASH@
        &&& serializable(self.partial.tree()) && tree_hash(self.partial.tree()) == PARTIAL_PUZZLE_HASH@
        &&& serializable(self.xch_maker.tree()) && tree_hash(self.xch_maker.tree()) == XCH_CAT_MAKER_PUZZLE_HASH@
        &&& serializable(self.default_maker.tree()) && tree_hash(self.default_maker.tree()) == DEFAULT_CAT_MAKER_PUZZLE_HASH@
        &&& serializable(self.revocable_maker.tree())
            && tree_hash(self.revocable_maker.tree()) == REVOCABLE_CAT_MAKER_PUZZLE_HASH@
    }

    /// Reads the templates; `None` when one does not parse or does not hash
    /// to its published hash.
    pub fn load() -> (r: Option<PuzzleTemplates>)
        ensures
            r matches Some(t) ==> t.wf() && ser(t.cat.tree()) == CAT_PUZZLE@
                && ser(t.revocation.tree()) == REVOCATION_LAYER@ && ser(t.one_of_many.tree()) == P2_1_OF_N@,
            template_ok(CAT_PUZZLE@, CAT_PUZZLE_HASH@) && template_ok(REVOCATION_LAYER@, REVOCATION_LAYER_HASH@)
                && template_ok(P2_1_OF_N@, P2_1_OF_N_HASH@) && template_ok(PARTIAL_PUZZLE@, PARTIAL_PUZZLE_HASH@)
                && template_ok(XCH_CAT_MAKER_PUZZLE@, XCH_CAT_MAKER_PUZZLE_HASH@)
                && template_ok(DEFAULT_CAT_MAKER_PUZZLE@, DEFAULT_CAT_MAKER_PUZZLE_HASH@)
                && template_ok(REVOCABLE_CAT_MAKER_PUZZLE@, REVOCABLE_CAT_MAKER_PUZZLE_HASH@) ==> r is Some,
    {
        let cat = read_template(&array_to_vec(&CAT_PUZZLE), Bytes32::new(CAT_PUZZLE_HASH));
        let revocation = read_template(&array_to_vec(&REVOCATION_LAYER), Bytes32::new(REVOCATION_LAYER_HASH));
        let one_of_many = read_template(&array_to_vec(&P2_1_OF_N), Bytes32::new(P2_1_OF_N_HASH));
        let partial = read_template(&array_to_vec(&PARTIAL_PUZZLE), Bytes32::new(PARTIAL_PUZZLE_HASH));
        let xch_maker = read_template(&array_to_vec(&XCH_CAT_MAKER_PUZZLE), Bytes32::new(XCH_CAT_MAKER_PUZZLE_HASH));
        let default_maker = read_template(
            &array_to_vec(&DEFAULT_CAT_MAKER_PUZZLE),
            Bytes32::new(DEFAULT_CAT_MAKER_PUZZLE_HASH),
        );
        let revocable_maker = read_template(
            &array_to_vec(&REVOCABLE_CAT_MAKER_PUZZLE),
            Bytes32::new(REVOCABLE_CAT_MAKER_PUZZLE_HASH),
        );
        match (cat, revocation, one_of_many, partial, xch_maker, default_maker, revocable_maker) {
            (Some(cat), Some(revocation), Some(one_of_many), Some(partial), Some(xch_maker), Some(default_maker), Some(
                revocable_maker,
            )) => Some(PuzzleTemplates { cat, revocation, one_of_many, partial, xch_maker, default_maker, revocable_maker }),
            _ => None,
        }
    }
}


} // verus!
