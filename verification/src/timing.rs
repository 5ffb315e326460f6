//! The scanline clock: what one scanline step does to the unit, and the
//! function that runs the steps due up to a cycle count.

use vstd::prelude::*;
use crate::mem::Mem;
use crate::ppu::{
    Ppu, PpuView, StepResult, CYCLES_PER_SCANLINE, LAST_SCANLINE, SCREEN_HEIGHT, VBLANK_SCANLINE,
};
use crate::regs::{
    with_flag, PpuStatus, Regs, SpriteSize, STATUS_IN_VBLANK, STATUS_SPRITE_ZERO_HIT,
};

verus! {

impl PpuView {
    /// Whether the step from this state begins vertical blank.
    pub open spec fn enters_vblank(self) -> bool {
        self.scanline + 1 == VBLANK_SCANLINE
    }

    /// Whether the step from this state ends the frame.
    pub open spec fn ends_frame(self) -> bool {
        self.scanline + 1 == LAST_SCANLINE
    }

    /// The status byte after the step from this state, given the byte as
    /// drawing left it. Entering vertical blank sets that flag and clears
    /// sprite-zero-hit; the end of the frame clears the vertical-blank flag.
    pub open spec fn status_after_line(self, drawn: u8) -> u8 {
        if self.enters_vblank() {
            with_flag(with_flag(drawn, STATUS_IN_VBLANK, true), STATUS_SPRITE_ZERO_HIT, false)
        } else if self.ends_frame() {
            with_flag(drawn, STATUS_IN_VBLANK, false)
        } else {
            drawn
        }
    }

    /// The state after one scanline step: a visible scanline is drawn, the
    /// scanline counter moves on, back to 0 at the end of the frame, the
    /// status flags follow, and the cycle counter grows by one scanline.
    pub open spec fn after_line(self) -> PpuView {
        let drawn = if self.scanline < SCREEN_HEIGHT {
            self.after_render()
        } else {
            self
        };
        PpuView {
            regs: Regs {
                status: PpuStatus(self.status_after_line(drawn.regs.status.0)),
                ..drawn.regs
            },
            scanline: if self.ends_frame() {
                0
            } else {
                (self.scanline + 1) as u16
            },
            cy: (self.cy + CYCLES_PER_SCANLINE) as u64,
            ..drawn
        }
    }

    /// What one scanline step reports.
    pub open spec fn line_result(self) -> StepResult {
        StepResult {
            new_frame: self.ends_frame(),
            vblank_nmi: self.enters_vblank() && self.regs.ctrl.vblank_nmi(),
        }
    }

    /// The state after `n` scanline steps.
    pub open spec fn after_lines(self, n: nat) -> PpuView
        decreases n,
    {
        if n == 0 {
            self
        } else {
            self.after_lines((n - 1) as nat).after_line()
        }
    }

    /// What `n` scanline steps report together: each signal is raised if
    /// one of the steps raises it.
    pub open spec fn lines_result(self, n: nat) -> StepResult
        decreases n,
    {
        if n == 0 {
            StepResult { new_frame: false, vblank_nmi: false }
        } else {
            let before = self.lines_result((n - 1) as nat);
            let last = self.after_lines((n - 1) as nat).line_result();
            StepResult {
                new_frame: before.new_frame || last.new_frame,
                vblank_nmi: before.vblank_nmi || last.vblank_nmi,
            }
        }
    }

    /// The number of scanline steps whose end lies at or before the cycle
    /// count `run_to_cycle`.
    pub open spec fn lines_due(self, run_to_cycle: u64) -> nat {
        if run_to_cycle >= self.cy {
            ((run_to_cycle - self.cy) / CYCLES_PER_SCANLINE as int) as nat
        } else {
            0
        }
    }

    /// Whether the step from this state can be taken: it does not have to
    /// draw a sprite of two tiles.
    pub open spec fn can_step(self) -> bool {
        self.scanline < SCREEN_HEIGHT ==> !self.scene().draws_tall_sprite(self.scanline)
    }

    /// Whether `n` steps in a row can be taken.
    pub open spec fn can_run(self, n: nat) -> bool {
        forall|k: nat| k < n ==> #[trigger] self.after_lines(k).can_step()
    }

    /// Scanline steps change neither the registers that the processor
    /// writes nor the stores, and count scanlines round the frame.
    pub proof fn lemma_lines_keep_scene(self, n: nat)
        requires
            self.wf(),
        ensures
            self.after_lines(n).scene() == self.scene(),
            self.after_lines(n).regs.ctrl == self.regs.ctrl,
            self.after_lines(n).scanline == (self.scanline + n) % LAST_SCANLINE as int,
            self.after_lines(n).screen.len() == self.screen.len(),
        decreases n,
    {
        if n > 0 {
            self.lemma_lines_keep_scene((n - 1) as nat);
        }
    }

    /// Where sprites are one tile tall, or hidden, every step can be taken.
    pub proof fn lemma_small_sprites_can_run(self, n: nat)
        requires
            self.wf(),
            self.regs.ctrl.sprite_size() == SpriteSize::SpriteSize8x8
                || !self.regs.mask.show_sprites(),
        ensures
            self.can_run(n),
    {
        assert forall|k: nat| k < n implies #[trigger] self.after_lines(k).can_step() by {
            self.lemma_lines_keep_scene(k);
        }
    }
}

/// Over the 262 scanline steps that follow the start of a frame, one step
/// and no other ends the frame, the 261st, and one step and no other enters
/// vertical blank, the 241st, which comes before it. Run together, the 262
/// steps report the frame as complete, and the interrupt as the control
/// register enables it.
pub proof fn law_one_frame(v: PpuView)
    requires
        v.wf(),
        v.scanline == 0,
    ensures
        forall|k: nat| k < 262 ==> (#[trigger] v.after_lines(k).ends_frame() <==> k == 260),
        forall|k: nat| k < 262 ==> (#[trigger] v.after_lines(k).enters_vblank() <==> k == 240),
        v.lines_result(262).new_frame,
        v.lines_result(262).vblank_nmi == v.regs.ctrl.vblank_nmi(),
{
    assert forall|k: nat| k < 262 implies (#[trigger] v.after_lines(k).ends_frame() <==> k == 260) by {
        v.lemma_lines_keep_scene(k);
    }
    assert forall|k: nat| k < 262 implies (#[trigger] v.after_lines(k).enters_vblank() <==> k
        == 240) by {
        v.lemma_lines_keep_scene(k);
    }
    assert forall|k: nat| k < 262 implies #[trigger] v.after_lines(k).regs.ctrl == v.regs.ctrl by {
        v.lemma_lines_keep_scene(k);
    }
    lemma_lines_result(v, 262);
    assert(v.after_lines(260).line_result().new_frame);
    if v.regs.ctrl.vblank_nmi() {
        assert(v.after_lines(240).line_result().vblank_nmi);
    }
}

/// Steps report together what one of them reports.
pub proof fn lemma_lines_result(v: PpuView, n: nat)
    ensures
        v.lines_result(n).new_frame <==> exists|k: nat|
            k < n && #[trigger] v.after_lines(k).line_result().new_frame,
        v.lines_result(n).vblank_nmi <==> exists|k: nat|
            k < n && #[trigger] v.after_lines(k).line_result().vblank_nmi,
    decreases n,
{
    if n > 0 {
        let m = (n - 1) as nat;
        lemma_lines_result(v, m);
        if v.lines_result(m).new_frame {
            let k = choose|k: nat| k < m && #[trigger] v.after_lines(k).line_result().new_frame;
            assert(k < n);
        }
        if v.lines_result(m).vblank_nmi {
            let k = choose|k: nat| k < m && #[trigger] v.after_lines(k).line_result().vblank_nmi;
            assert(k < n);
        }
        if exists|k: nat| k < n && #[trigger] v.after_lines(k).line_result().new_frame {
            let k = choose|k: nat| k < n && #[trigger] v.after_lines(k).line_result().new_frame;
            if k < m {
                assert(v.lines_result(m).new_frame);
            }
        }
        if exists|k: nat| k < n && #[trigger] v.after_lines(k).line_result().vblank_nmi {
            let k = choose|k: nat| k < n && #[trigger] v.after_lines(k).line_result().vblank_nmi;
            if k < m {
                assert(v.lines_result(m).vblank_nmi);
            }
        }
    }
}

impl<VM: Mem, OM: Mem> Ppu<VM, OM> {
    /// Begins vertical blank: sets that status flag, clears sprite-zero-hit,
    /// and asks for the interrupt where the control register enables it.
    pub fn start_vblank(&mut self, result: &mut StepResult)
        ensures
            final(self)@ == (PpuView {
                regs: Regs {
                    status: PpuStatus(
                        with_flag(
                            with_flag(old(self).regs.status.0, STATUS_IN_VBLANK, true),
                            STATUS_SPRITE_ZERO_HIT,
                            false,
                        ),
                    ),
                    ..old(self).regs
                },
                ..old(self)@
            }),
            final(self).vram.wf() == old(self).vram.wf(),
            final(self).oam.wf() == old(self).oam.wf(),
            final(result).new_frame == old(result).new_frame,
            final(result).vblank_nmi == (old(result).vblank_nmi || old(
                self,
            ).regs.ctrl.vblank_nmi()),
    {
        self.regs.status.set_in_vblank(true);
        self.regs.status.set_sprite_zero_hit(false);
        if self.regs.ctrl.vblank_nmi() {
            result.vblank_nmi = true;
        }
    }

    /// Runs the unit up to the cycle count `run_to_cycle`: every scanline
    /// step whose end lies at or before it is taken, in order.
    pub fn step(&mut self, run_to_cycle: u64) -> (result: StepResult)
        requires
            old(self).wf(),
            old(self)@.can_run(old(self)@.lines_due(run_to_cycle)),
        ensures
            final(self).wf(),
            final(self)@ == old(self)@.after_lines(old(self)@.lines_due(run_to_cycle)),
            result == old(self)@.lines_result(old(self)@.lines_due(run_to_cycle)),
            final(self).cy % CYCLES_PER_SCANLINE == 0,
            final(self).cy == old(self).cy + CYCLES_PER_SCANLINE * old(self)@.lines_due(
                run_to_cycle,
            ),
            final(self).cy + CYCLES_PER_SCANLINE > run_to_cycle,
    {
        let mut result = StepResult { new_frame: false, vblank_nmi: false };
        let ghost start = self@;
        let ghost due = start.lines_due(run_to_cycle);
        let ghost mut done: nat = 0;
        loop
            invariant
                self.wf(),
                start == old(self)@,
                due == start.lines_due(run_to_cycle),
                start.can_run(due),
                done <= due,
                self@ == start.after_lines(done),
                result == start.lines_result(done),
                self.cy == start.cy + CYCLES_PER_SCANLINE * done,
            ensures
                self.wf(),
                done == due,
                self@ == start.after_lines(done),
                result == start.lines_result(done),
                self.cy == start.cy + CYCLES_PER_SCANLINE * done,
                self.cy + CYCLES_PER_SCANLINE > run_to_cycle,
            decreases due - done,
        {
            if self.cy > run_to_cycle || run_to_cycle - self.cy < CYCLES_PER_SCANLINE {
                break ;
            }
            let ghost at_entry = self@;
            assert(done < due);
            assert(at_entry.can_step());
            if self.scanline < (SCREEN_HEIGHT as u16) {
                self.render_scanline();
            }
            self.scanline += 1;
            if self.scanline == (VBLANK_SCANLINE as u16) {
                self.start_vblank(&mut result);
            } else if self.scanline == (LAST_SCANLINE as u16) {
                result.new_frame = true;
                self.scanline = 0;
                self.regs.status.set_in_vblank(false);
            }
            self.cy += CYCLES_PER_SCANLINE;
            proof {
                assert(self@ == at_entry.after_line());
                done = done + 1;
            }
        }
        result
    }
}

} // verus!
