use vstd::prelude::*;

use crate::cpu::Cpu;

verus! {

/// Address where the game finds a fresh random byte before every instruction.
pub const RNG_ADDR: u16 = 0xfe;

/// Address where the game finds the last key the player pressed (an ASCII byte).
pub const INPUT_ADDR: u16 = 0xff;

/// First byte of the memory-mapped screen: one colour index per pixel.
pub const SCREEN_START: u16 = 0x0200;

/// One past the last byte of the memory-mapped screen.
pub const SCREEN_END: u16 = 0x0600;

pub const WIDTH: u32 = 32;

pub const HEIGHT: u32 = 32;

/// Bytes in an RGB24 frame of `WIDTH * HEIGHT` pixels.
pub const FRAME_LEN: usize = 3072;

/// The RGB colour that a screen byte shows.
pub open spec fn palette(byte: u8) -> (u8, u8, u8) {
    match byte {
        0 => (0, 0, 0),  // black
        1 => (255, 255, 255),  // white
        2 | 9 => (128, 128, 128),  // grey
        3 | 10 => (255, 0, 0),  // red
        4 | 11 => (0, 255, 0),  // green
        5 | 12 => (0, 0, 255),  // blue
        6 | 13 => (255, 0, 255),  // magenta
        7 | 14 => (255, 255, 0),  // yellow
        _ => (0, 255, 255),  // cyan
    }
}

pub open spec fn channel(rgb: (u8, u8, u8), k: int) -> u8 {
    if k == 0 {
        rgb.0
    } else if k == 1 {
        rgb.1
    } else {
        rgb.2
    }
}

/// The RGB24 frame that the screen memory of `mem` shows, three bytes per pixel.
pub open spec fn rendered(mem: Seq<u8>) -> Seq<u8> {
    Seq::new(FRAME_LEN as nat, |i: int| channel(palette(mem[SCREEN_START + i / 3]), i % 3))
}

/// The byte the game reads for a key, by the key's name.
pub open spec fn key_input(key: char) -> Option<u8> {
    match key {
        'W' => Some(0x77u8),
        'S' => Some(0x73u8),
        'A' => Some(0x61u8),
        'D' => Some(0x64u8),
        _ => None,
    }
}

/// The frame holds one pixel per screen byte, in memory order, three bytes per
/// pixel: red, then green, then blue of that byte's colour.
pub proof fn law_rendered_pixels(mem: Seq<u8>, p: int)
    requires
        mem.len() == 0x10000,
        0 <= p < 1024,
    ensures
        rendered(mem).len() == 3072,
        rendered(mem)[3 * p] == palette(mem[0x0200 + p]).0,
        rendered(mem)[3 * p + 1] == palette(mem[0x0200 + p]).1,
        rendered(mem)[3 * p + 2] == palette(mem[0x0200 + p]).2,
{
    assert((3 * p) / 3 == p && (3 * p) % 3 == 0);
    assert((3 * p + 1) / 3 == p && (3 * p + 1) % 3 == 1);
    assert((3 * p + 2) / 3 == p && (3 * p + 2) % 3 == 2);
}

/// Which screen bytes show which colour, as (red, green, blue): 0 black,
/// 1 white, 2 and 9 grey, 3 and 10 red, 4 and 11 green, 5 and 12 blue, 6 and 13
/// magenta, 7 and 14 yellow, every other byte cyan.
pub proof fn law_palette(b: u8)
    ensures
        (palette(b) == (0u8, 0u8, 0u8)) == (b == 0),
        (palette(b) == (255u8, 255u8, 255u8)) == (b == 1),
        (palette(b) == (128u8, 128u8, 128u8)) == (b == 2 || b == 9),
        (palette(b) == (255u8, 0u8, 0u8)) == (b == 3 || b == 10),
        (palette(b) == (0u8, 255u8, 0u8)) == (b == 4 || b == 11),
        (palette(b) == (0u8, 0u8, 255u8)) == (b == 5 || b == 12),
        (palette(b) == (255u8, 0u8, 255u8)) == (b == 6 || b == 13),
        (palette(b) == (255u8, 255u8, 0u8)) == (b == 7 || b == 14),
        (palette(b) == (0u8, 255u8, 255u8)) == (b == 8 || b >= 15),
{
}

/// Only the W, A, S and D keys give input: the lower-case ASCII code of their
/// letter.
pub proof fn law_key_input(key: char)
    ensures
        key_input(key) is Some <==> (key == 'W' || key == 'A' || key == 'S' || key == 'D'),
        key_input(key) is Some ==> key_input(key).unwrap() == (key as u32) + 32,
{
}

pub fn color(byte: u8) -> (rgb: (u8, u8, u8))
    ensures
        rgb == palette(byte),
{
    match byte {
        0 => (0, 0, 0),
        1 => (255, 255, 255),
        2 | 9 => (128, 128, 128),
        3 | 10 => (255, 0, 0),
        4 | 11 => (0, 255, 0),
        5 | 12 => (0, 0, 255),
        6 | 13 => (255, 0, 255),
        7 | 14 => (255, 255, 0),
        _ => (0, 255, 255),
    }
}

/// The direction byte for a key of the W/A/S/D controls, named as on the
/// keyboard; other keys give nothing.
pub fn input_for_key(key: char) -> (input: Option<u8>)
    ensures
        input == key_input(key),
{
    match key {
        'W' => Some(0x77),
        'S' => Some(0x73),
        'A' => Some(0x61),
        'D' => Some(0x64),
        _ => None,
    }
}

/// Brings `frame` up to date with the screen memory of `cpu`; says whether any
/// byte of the frame changed.
pub fn read_screen_state(cpu: &Cpu, frame: &mut [u8; 3072]) -> (update: bool)
    ensures
        final(frame)@ == rendered(cpu@.mem),
        update == (final(frame)@ != old(frame)@),
{
    let ghost before = frame@;
    let ghost target = rendered(cpu@.mem);
    let mut frame_idx: usize = 0;
    let mut update = false;
    let mut addr: u16 = SCREEN_START;
    while addr < SCREEN_END
        invariant
            SCREEN_START <= addr <= SCREEN_END,
            frame_idx == 3 * (addr - SCREEN_START),
            target == rendered(cpu@.mem),
            before.len() == FRAME_LEN,
            frame@.len() == FRAME_LEN,
            forall|i: int| 0 <= i < frame_idx ==> frame@[i] == target[i],
            forall|i: int| frame_idx <= i < FRAME_LEN ==> frame@[i] == before[i],
            update == (exists|i: int| 0 <= i < frame_idx && before[i] != target[i]),
        decreases SCREEN_END - addr,
    {
        let color_idx = cpu.mem_read(addr);
        let (b1, b2, b3) = color(color_idx);
        assert(target[frame_idx as int] == b1);
        assert(target[frame_idx + 1] == b2);
        assert(target[frame_idx + 2] == b3);
        if frame[frame_idx] != b1 || frame[frame_idx + 1] != b2 || frame[frame_idx + 2] != b3 {
            frame[frame_idx] = b1;
            frame[frame_idx + 1] = b2;
            frame[frame_idx + 2] = b3;
            update = true;
        }
        frame_idx += 3;
        addr += 1;
    }
    proof {
        assert(frame@ =~= target);
        if update {
            let i = choose|i: int| 0 <= i < frame_idx && before[i] != target[i];
            assert(frame@[i] != before[i]);
        } else {
            assert(before =~= target);
        }
    }
    update
}

} // verus!
