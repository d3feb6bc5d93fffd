//! The picture that a front end shows: 32 by 32 pixels, one memory cell each,
//! turned into a frame of four bytes per pixel; and the two memory cells
//! through which a front end hands the program a random byte and a key.

use rand::Rng;
use vstd::prelude::*;
use crate::error::CpuError;
use crate::machine;
use crate::machine::CpuState;
use crate::processor::CPU;

verus! {

/// The address of the cell that holds the first pixel.
pub const SCREEN_START: u16 = 0x0200;

/// The number of pixels; each has one cell, from `SCREEN_START` on.
pub const SCREEN_PIXELS: usize = 1024;

/// The number of bytes in a frame: four for each pixel.
pub const FRAME_BYTES: usize = 4096;

/// The address of the cell that takes a fresh random byte before each frame.
pub const RANDOM_CELL: u16 = 0x00FE;

/// The least byte that the random cell is given.
pub const RANDOM_LOW: u8 = 1;

/// The bound that the bytes given to the random cell stay below.
pub const RANDOM_HIGH: u8 = 16;

/// The address of the cell that takes the code of the key last pressed.
pub const KEY_CELL: u16 = 0x00FF;

/// The keys that steer the program.
#[derive(Clone, Copy, Debug, PartialEq, Eq, Structural)]
pub enum Key {
    W,
    A,
    S,
    D,
}

/// The byte that stands for a key: the code of its lower-case letter.
pub open spec fn key_code_of(key: Key) -> u8 {
    match key {
        Key::W => 0x77,
        Key::A => 0x61,
        Key::S => 0x73,
        Key::D => 0x64,
    }
}

/// The red, green and blue parts of the colour that a cell's byte stands for.
pub open spec fn color_of(byte: u8) -> (u8, u8, u8) {
    if byte == 0 {
        (0u8, 0u8, 0u8)
    } else if byte == 1 {
        (255u8, 255u8, 255u8)
    } else if byte == 2 || byte == 9 {
        (128u8, 128u8, 128u8)
    } else if byte == 3 || byte == 10 {
        (255u8, 0u8, 0u8)
    } else if byte == 4 || byte == 11 {
        (0u8, 255u8, 0u8)
    } else if byte == 5 || byte == 12 {
        (0u8, 0u8, 255u8)
    } else if byte == 6 || byte == 13 {
        (255u8, 0u8, 255u8)
    } else if byte == 7 || byte == 14 {
        (255u8, 255u8, 0u8)
    } else {
        (0u8, 255u8, 255u8)
    }
}

/// The colour that a cell's byte stands for.
pub fn color(byte: u8) -> (rgb: (u8, u8, u8))
    ensures
        rgb == color_of(byte),
{
    match byte {
        0 => (0, 0, 0),
        1 => (255, 255, 255),
        2 | 9 => (128, 128, 128),
        3 | 10 => (255, 0, 0),
        4 | 11 => (0, 255, 0),
        5 | 12 => (0, 0, 255),
        6 | 13 => (255, 0, 255),
        7 | 14 => (255, 255, 0),
        _ => (0, 255, 255),
    }
}

/// The colour of pixel `p` as the memory has it.
pub open spec fn pixel_color(mem: Seq<u8>, p: int) -> (u8, u8, u8) {
    color_of(mem[SCREEN_START + p])
}

/// Whether the red, green and blue bytes of pixel `p` in a frame are other
/// than `rgb`.
pub open spec fn pixel_differs(frame: Seq<u8>, p: int, rgb: (u8, u8, u8)) -> bool {
    frame[4 * p] != rgb.0 || frame[4 * p + 1] != rgb.1 || frame[4 * p + 2] != rgb.2
}

/// The frame after pixel `p` has been painted: its red, green and blue bytes
/// take `rgb`, and the byte four places on, the red byte of the next pixel,
/// takes the blue part.
pub open spec fn paint(frame: Seq<u8>, p: int, rgb: (u8, u8, u8)) -> Seq<u8> {
    frame.update(4 * p, rgb.0).update(4 * p + 1, rgb.1).update(4 * p + 2, rgb.2).update(
        4 * p + 4,
        rgb.2,
    )
}

/// The frame after the first `n` pixels have had their turn: each is compared
/// with the memory and painted where it differs.
pub open spec fn refreshed(mem: Seq<u8>, frame: Seq<u8>, n: nat) -> Seq<u8>
    decreases n,
{
    if n == 0 {
        frame
    } else {
        let before = refreshed(mem, frame, (n - 1) as nat);
        if pixel_differs(before, n - 1, pixel_color(mem, n - 1)) {
            paint(before, n - 1, pixel_color(mem, n - 1))
        } else {
            before
        }
    }
}

/// Whether a refresh would paint the last pixel, whose painting reaches past
/// the end of the frame.
pub open spec fn overruns(mem: Seq<u8>, frame: Seq<u8>) -> bool {
    pixel_differs(
        refreshed(mem, frame, (SCREEN_PIXELS - 1) as nat),
        SCREEN_PIXELS - 1,
        pixel_color(mem, SCREEN_PIXELS - 1),
    )
}

/// Whether some pixel of the frame differs from what the memory holds.
pub open spec fn out_of_date(mem: Seq<u8>, frame: Seq<u8>) -> bool {
    exists|p: int| 0 <= p < SCREEN_PIXELS && pixel_differs(frame, p, pixel_color(mem, p))
}

/// What bringing a frame up to date leaves and tells.
pub ghost struct Shown {
    pub frame: Seq<u8>,
    pub update: Option<bool>,
}

/// Bringing `frame` up to date with the screen cells of `mem`. Where no
/// painting overruns, every pixel has had its turn and `update` tells whether
/// the frame was out of date. Where the last pixel would be painted, `update`
/// is `None` and the frame is as it was when that pixel's turn came.
pub open spec fn shown(mem: Seq<u8>, frame: Seq<u8>) -> Shown {
    if overruns(mem, frame) {
        Shown { frame: refreshed(mem, frame, (SCREEN_PIXELS - 1) as nat), update: None }
    } else {
        Shown {
            frame: refreshed(mem, frame, SCREEN_PIXELS as nat),
            update: Some(out_of_date(mem, frame)),
        }
    }
}

/// Brings a frame up to date with the screen cells of the memory, pixel by
/// pixel, and tells whether any pixel had to be painted. Painting the last
/// pixel would write past the end of the frame: then the result is `None`,
/// and the frame is left as it was when that pixel's turn came.
pub fn read_screen_state(cpu: &CPU, frame: &mut [u8; 4096]) -> (update: Option<bool>)
    ensures
        final(frame)@ == shown(cpu@.mem, old(frame)@).frame,
        update == shown(cpu@.mem, old(frame)@).update,
{
    let mut frame_idx: usize = 0;
    let mut update = false;
    let mut i: u16 = 0x0200;
    while i < 0x0600
        invariant
            0x0200 <= i <= 0x0600,
            frame_idx == 4 * (i - 0x0200),
            frame@ == refreshed(cpu@.mem, old(frame)@, (i - 0x0200) as nat),
            !update ==> frame@ == old(frame)@,
            i == 0x0600 ==> !overruns(cpu@.mem, old(frame)@),
            update <==> exists|q: int|
                0 <= q < i - 0x0200 && pixel_differs(old(frame)@, q, pixel_color(cpu@.mem, q)),
        decreases 0x0600 - i,
    {
        let color_idx = cpu.mem_read(i);
        let (b1, b2, b3) = color(color_idx);
        if frame[frame_idx] != b1 || frame[frame_idx + 1] != b2 || frame[frame_idx + 2] != b3 {
            if frame_idx + 4 >= 4096 {
                return None;
            }
            frame[frame_idx] = b1;
            frame[frame_idx + 1] = b2;
            frame[frame_idx + 2] = b3;
            frame[frame_idx + 4] = b3;
            update = true;
        }
        frame_idx += 4;
        i += 1;
    }
    Some(update)
}

/// What a refresh that does not overrun leaves: every pixel shows the colour
/// that the memory has for it, and the fourth byte of every pixel is what it
/// was.
pub proof fn lemma_refreshed_shows_memory(mem: Seq<u8>, frame: Seq<u8>)
    requires
        frame.len() == FRAME_BYTES,
        !overruns(mem, frame),
    ensures
        refreshed(mem, frame, SCREEN_PIXELS as nat).len() == FRAME_BYTES,
        forall|p: int|
            0 <= p < SCREEN_PIXELS ==> !#[trigger] pixel_differs(
                refreshed(mem, frame, SCREEN_PIXELS as nat),
                p,
                pixel_color(mem, p),
            ),
        forall|p: int|
            0 <= p < SCREEN_PIXELS ==> refreshed(mem, frame, SCREEN_PIXELS as nat)[#[trigger] (4
                * p) + 3] == frame[4 * p + 3],
{
    lemma_refreshed_prefix(mem, frame, SCREEN_PIXELS as nat);
    let after = refreshed(mem, frame, SCREEN_PIXELS as nat);
    assert forall|p: int| 0 <= p < SCREEN_PIXELS implies after[#[trigger] (4 * p) + 3] == frame[4
        * p + 3] by {
        assert((4 * p + 3) % 4 == 3);
    }
}

/// After the first `n` pixels have had their turn, each of them shows the
/// colour that the memory has for it; the fourth byte of every pixel and all
/// bytes after the red byte of pixel `n` are what they were.
proof fn lemma_refreshed_prefix(mem: Seq<u8>, frame: Seq<u8>, n: nat)
    requires
        frame.len() == FRAME_BYTES,
        n <= SCREEN_PIXELS,
        n == SCREEN_PIXELS ==> !overruns(mem, frame),
    ensures
        refreshed(mem, frame, n).len() == FRAME_BYTES,
        forall|p: int|
            0 <= p < n ==> !#[trigger] pixel_differs(refreshed(mem, frame, n), p, pixel_color(mem, p)),
        forall|k: int|
            0 <= k < FRAME_BYTES && (k % 4 == 3 || k > 4 * n) ==> #[trigger] refreshed(
                mem,
                frame,
                n,
            )[k] == frame[k],
    decreases n,
{
    if n > 0 {
        lemma_refreshed_prefix(mem, frame, (n - 1) as nat);
        let before = refreshed(mem, frame, (n - 1) as nat);
        let after = refreshed(mem, frame, n);
        assert forall|p: int| 0 <= p < n implies !#[trigger] pixel_differs(
            after,
            p,
            pixel_color(mem, p),
        ) by {
            if p < n - 1 {
                assert(!pixel_differs(before, p, pixel_color(mem, p)));
            }
        }
    }
}

/// The byte that stands for a key.
pub fn key_code(key: &Key) -> (code: u8)
    ensures
        code == key_code_of(*key),
{
    match key {
        Key::W => 0x77,
        Key::A => 0x61,
        Key::S => 0x73,
        Key::D => 0x64,
    }
}

/// Hands the program a key: its code goes to the key cell.
pub fn press_key(cpu: &mut CPU, key: &Key)
    ensures
        final(cpu)@ == (CpuState {
            mem: old(cpu)@.mem.update(KEY_CELL as int, key_code_of(*key)),
            ..old(cpu)@
        }),
{
    cpu.mem_write(KEY_CELL, key_code(key));
}

/// What the work of one frame leaves and tells.
pub ghost struct Redrawn {
    pub state: CpuState,
    pub frame: Seq<u8>,
    pub update: Result<Option<bool>, CpuError>,
}

/// The work of one frame with `random` as its random byte: the program runs
/// until it halts, the byte goes to the random cell, and the frame is brought
/// up to date. A run that fails ends the frame there, with neither the random
/// cell nor the frame touched.
pub open spec fn redrawn(s: CpuState, random: u8, frame: Seq<u8>) -> Redrawn {
    let ran = machine::run(s);
    match ran.result {
        Err(e) => Redrawn { state: ran.state, frame, update: Err(e) },
        Ok(_) => {
            let state = CpuState {
                mem: ran.state.mem.update(RANDOM_CELL as int, random),
                ..ran.state
            };
            Redrawn {
                state,
                frame: shown(state.mem, frame).frame,
                update: Ok(shown(state.mem, frame).update),
            }
        },
    }
}

/// Stores the random byte of a frame and brings the frame up to date.
fn show(cpu: &mut CPU, random: u8, frame: &mut [u8; 4096]) -> (update: Option<bool>)
    ensures
        final(cpu)@ == (CpuState {
            mem: old(cpu)@.mem.update(RANDOM_CELL as int, random),
            ..old(cpu)@
        }),
        final(frame)@ == shown(final(cpu)@.mem, old(frame)@).frame,
        update == shown(final(cpu)@.mem, old(frame)@).update,
{
    cpu.mem_write(RANDOM_CELL, random);
    read_screen_state(cpu, frame)
}

/// The work of one frame with a given random byte: runs the program until it
/// halts, stores the byte in the random cell, and brings the frame up to
/// date. A run that fails ends the frame there, the error handed on.
pub fn redraw(cpu: &mut CPU, random: u8, frame: &mut [u8; 4096]) -> (update: Result<
    Option<bool>,
    CpuError,
>)
    ensures
        final(cpu)@ == redrawn(old(cpu)@, random, old(frame)@).state,
        final(frame)@ == redrawn(old(cpu)@, random, old(frame)@).frame,
        update == redrawn(old(cpu)@, random, old(frame)@).update,
{
    match cpu.run() {
        Ok(()) => Ok(show(cpu, random, frame)),
        Err(e) => Err(e),
    }
}

/// `rand::Rng::gen_range` on the generator that `rand::thread_rng` hands out
/// for the current thread. The contract claims what the generator's
/// documentation gives: the byte is at least `low` and below `high`. Which
/// byte of that range comes is left open.
#[verifier::external_body]
fn random_between(low: u8, high: u8) -> (byte: u8)
    requires
        low < high,
    ensures
        low <= byte < high,
{
    rand::thread_rng().gen_range(low, high)
}

/// The work of one frame: runs the program until it halts, draws a random
/// byte from `RANDOM_LOW` up to but not including `RANDOM_HIGH`, stores it in
/// the random cell, and brings the frame up to date. Whatever byte was drawn,
/// the outcome is that of `redraw` with that byte.
pub fn next_frame(cpu: &mut CPU, frame: &mut [u8; 4096]) -> (update: Result<Option<bool>, CpuError>)
    ensures
        exists|random: u8|
            {
                &&& RANDOM_LOW <= random < RANDOM_HIGH
                &&& final(cpu)@ == (#[trigger] redrawn(old(cpu)@, random, old(frame)@)).state
                &&& final(frame)@ == redrawn(old(cpu)@, random, old(frame)@).frame
                &&& update == redrawn(old(cpu)@, random, old(frame)@).update
            },
{
    match cpu.run() {
        Ok(()) => {
            let random = random_between(RANDOM_LOW, RANDOM_HIGH);
            let update = show(cpu, random, frame);
            assert(cpu@ == redrawn(old(cpu)@, random, old(frame)@).state);
            Ok(update)
        },
        Err(e) => {
            assert(cpu@ == redrawn(old(cpu)@, RANDOM_LOW, old(frame)@).state);
            Err(e)
        },
    }
}

} // verus!
