//! The catalog of fixed control sequences.
//!
//! Every byte sequence that the fixed strategies emit is named here, both as a
//! specification-level `Seq<u8>` and as an executable builder proved to produce
//! exactly that sequence.

use vstd::prelude::*;

verus! {

/// `ESC [ H` then `ESC [ 2 J` then `ESC [ 3 J`: cursor home, erase screen,
/// erase scrollback, in the style of xterm.
pub open spec fn xterm_clear_seq() -> Seq<u8> {
    seq![
        0x1bu8, 0x5bu8, 0x48u8, // ESC [ H
        0x1bu8, 0x5bu8, 0x32u8, 0x4au8, // ESC [ 2 J
        0x1bu8, 0x5bu8, 0x33u8, 0x4au8, // ESC [ 3 J
    ]
}

/// `ESC c`, `ESC [ ! p`, `ESC [ ? 3 ; 4 l`, `ESC [ 4 l`, `ESC >`,
/// `ESC [ ? 6 9 l`: the full terminal reset in the style of xterm, in this
/// exact order.
pub open spec fn xterm_reset_seq() -> Seq<u8> {
    seq![
        0x1bu8, 0x63u8, // ESC c
        0x1bu8, 0x5bu8, 0x21u8, 0x70u8, // ESC [ ! p
        0x1bu8, 0x5bu8, 0x3fu8, 0x33u8, 0x3bu8, 0x34u8, 0x6cu8, // ESC [ ? 3 ; 4 l
        0x1bu8, 0x5bu8, 0x34u8, 0x6cu8, // ESC [ 4 l
        0x1bu8, 0x3eu8, // ESC >
        0x1bu8, 0x5bu8, 0x3fu8, 0x36u8, 0x39u8, 0x6cu8, // ESC [ ? 6 9 l
    ]
}

/// `ESC c`: Reset to Initial State.
pub open spec fn vt_ris_seq() -> Seq<u8> {
    seq![0x1bu8, 0x63u8]
}

/// `ESC [ ? 1 0 4 9 l`: leave the alternate screen.
pub open spec fn vt_leave_alt_seq() -> Seq<u8> {
    seq![0x1bu8, 0x5bu8, 0x3fu8, 0x31u8, 0x30u8, 0x34u8, 0x39u8, 0x6cu8]
}

/// Builds the xterm-style clear sequence.
pub fn xterm_clear_sequence() -> (r: Vec<u8>)
    ensures
        r@ == xterm_clear_seq(),
{
    let mut v: Vec<u8> = Vec::new();
    v.push(0x1b);
    v.push(0x5b);
    v.push(0x48);
    v.push(0x1b);
    v.push(0x5b);
    v.push(0x32);
    v.push(0x4a);
    v.push(0x1b);
    v.push(0x5b);
    v.push(0x33);
    v.push(0x4a);
    proof {
        assert(v@ =~= xterm_clear_seq());
    }
    v
}

/// Builds the xterm-style reset sequence.
pub fn xterm_reset_sequence() -> (r: Vec<u8>)
    ensures
        r@ == xterm_reset_seq(),
{
    let mut v: Vec<u8> = Vec::new();
    v.push(0x1b);
    v.push(0x63);
    v.push(0x1b);
    v.push(0x5b);
    v.push(0x21);
    v.push(0x70);
    v.push(0x1b);
    v.push(0x5b);
    v.push(0x3f);
    v.push(0x33);
    v.push(0x3b);
    v.push(0x34);
    v.push(0x6c);
    v.push(0x1b);
    v.push(0x5b);
    v.push(0x34);
    v.push(0x6c);
    v.push(0x1b);
    v.push(0x3e);
    v.push(0x1b);
    v.push(0x5b);
    v.push(0x3f);
    v.push(0x36);
    v.push(0x39);
    v.push(0x6c);
    proof {
        assert(v@ =~= xterm_reset_seq());
    }
    v
}

/// Builds the raw RIS sequence.
pub fn vt_ris_sequence() -> (r: Vec<u8>)
    ensures
        r@ == vt_ris_seq(),
{
    let mut v: Vec<u8> = Vec::new();
    v.push(0x1b);
    v.push(0x63);
    proof {
        assert(v@ =~= vt_ris_seq());
    }
    v
}

/// Builds the leave-alternate-screen sequence.
pub fn vt_leave_alt_sequence() -> (r: Vec<u8>)
    ensures
        r@ == vt_leave_alt_seq(),
{
    let mut v: Vec<u8> = Vec::new();
    v.push(0x1b);
    v.push(0x5b);
    v.push(0x3f);
    v.push(0x31);
    v.push(0x30);
    v.push(0x34);
    v.push(0x39);
    v.push(0x6c);
    proof {
        assert(v@ =~= vt_leave_alt_seq());
    }
    v
}

/// Appends every byte of `src` to `dst`, in order.
pub fn append_bytes(dst: &mut Vec<u8>, src: &Vec<u8>)
    ensures
        final(dst)@ == old(dst)@ + src@,
{
    let ghost base: Seq<u8> = dst@;
    let mut i: usize = 0;
    while i < src.len()
        invariant
            i <= src.len(),
            dst@ == base + src@.take(i as int),
        decreases src.len() - i,
    {
        let x = src[i];
        dst.push(x);
        proof {
            assert(dst@ =~= base + src@.take(i as int + 1));
        }
        i = i + 1;
    }
    proof {
        assert(dst@ =~= base + src@);
    }
}

} // verus!
