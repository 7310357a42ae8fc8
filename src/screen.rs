use vstd::prelude::*;
use crate::cpu::CPU;

verus! {

/// The 32x32 screen of the snake demo: one byte per cell at
/// 0x0200..=0x05FF, row by row.
pub const SCREEN_START: u16 = 0x0200;
pub const SCREEN_CELLS: usize = 1024;

/// Copies the demo's screen into `frame` (three bytes per cell), each cell
/// byte coloured through `colors`, and tells whether any byte of `frame`
/// changed.
pub fn read_screen_state(cpu: &mut CPU, frame: &mut Vec<u8>, colors: &Vec<(u8, u8, u8)>) -> (r: bool)
    requires
        old(cpu).wf(),
        old(frame).len() == 3 * 1024,
        colors.len() == 256,
    ensures
        final(cpu)@ == old(cpu)@,
        final(frame).len() == 3 * 1024,
        forall|i: int| 0 <= i < 1024 ==> {
            let c = colors@[old(cpu)@.bus.ram[0x200 + i] as int];
            &&& #[trigger] final(frame)@[3 * i] == c.0
            &&& final(frame)@[3 * i + 1] == c.1
            &&& final(frame)@[3 * i + 2] == c.2
        },
        r == (final(frame)@ != old(frame)@),
{
    let mut update = false;
    let mut i: usize = 0;
    while i < SCREEN_CELLS
        invariant
            cpu.wf(),
            cpu@ == old(cpu)@,
            frame.len() == 3 * 1024,
            colors.len() == 256,
            i <= 1024,
            forall|j: int| 0 <= j < i ==> {
                let c = colors@[old(cpu)@.bus.ram[0x200 + j] as int];
                &&& #[trigger] frame@[3 * j] == c.0
                &&& frame@[3 * j + 1] == c.1
                &&& frame@[3 * j + 2] == c.2
            },
            forall|k: int| 3 * i <= k < 3 * 1024 ==> #[trigger] frame@[k] == old(frame)@[k],
            update == (frame@ != old(frame)@),
        decreases 1024 - i,
    {
        let addr = SCREEN_START + i as u16;
        proof {
            crate::bus::lemma_ram_mirrors(cpu@.bus, addr, 1);
            crate::bus::lemma_ram_read(cpu@.bus, addr);
        }
        let ghost frame_before = frame@;
        let color_idx = cpu.memory_read_u8(addr);
        assert(addr as int == 0x200 + i);
        assert(color_idx == old(cpu)@.bus.ram[0x200 + i]);
        let (b1, b2, b3) = colors[color_idx as usize];
        assert((b1, b2, b3) == colors@[old(cpu)@.bus.ram[0x200 + i] as int]);
        let f = 3 * i;
        if frame[f] != b1 || frame[f + 1] != b2 || frame[f + 2] != b3 {
            let ghost before = frame@;
            frame.set(f, b1);
            frame.set(f + 1, b2);
            frame.set(f + 2, b3);
            assert(frame@ != old(frame)@) by {
                if before == old(frame)@ {
                    assert(frame@[f as int] != old(frame)@[f as int] || frame@[f + 1] != old(frame)@[f + 1]
                        || frame@[f + 2] != old(frame)@[f + 2]);
                }
            }
            update = true;
        }
        assert(frame@[f as int] == b1 && frame@[f + 1] == b2 && frame@[f + 2] == b3);
        assert(forall|k: int| 0 <= k < 3 * 1024 && (k < f || k >= f + 3) ==> frame@[k] == frame_before[k]);
        assert forall|j: int| 0 <= j < i + 1 implies {
            let c = colors@[old(cpu)@.bus.ram[0x200 + j] as int];
            &&& #[trigger] frame@[3 * j] == c.0
            &&& frame@[3 * j + 1] == c.1
            &&& frame@[3 * j + 2] == c.2
        } by {
            if j == i {
                assert(3 * j == f);
            } else {
                assert(frame_before[3 * j] == frame@[3 * j]);
                assert(frame_before[3 * j + 1] == frame@[3 * j + 1]);
                assert(frame_before[3 * j + 2] == frame@[3 * j + 2]);
            }
        }
        assert forall|k: int| 3 * (i + 1) <= k < 3 * 1024 implies #[trigger] frame@[k] == old(frame)@[k] by {
            assert(k >= 3 * i);
            assert(frame_before[k] == old(frame)@[k]);
        }
        i = i + 1;
    }
    update
}

} // verus!
