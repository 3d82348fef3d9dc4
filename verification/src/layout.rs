//! Which side panels are shown below the tables, how large, and in which rotation.

use crate::cycle::{
    lemma_wrapped_backward, lemma_wrapped_forward, lemma_wrapped_range, lemma_wrapped_turn, wrapped,
};
use crate::text::names_view;
use vstd::prelude::*;

verus! {

/// A template of side panels: how many are shown at once and the share of
/// the screen height each takes.
#[derive(Clone, Copy, Debug, PartialEq, Eq, Structural)]
pub enum LayoutMode {
    /// No side panel.
    Hidden,
    /// One panel of a quarter of the height.
    Single,
    /// Two panels of a quarter each.
    Double,
    /// Three panels of a quarter each.
    Triple,
    /// A panel of half the height above one of a quarter.
    HalfAndQuarter,
    /// One panel of three quarters of the height.
    Tall,
}

impl LayoutMode {
    /// The height of each slot, top to bottom, in percent of the screen.
    pub open spec fn spec_slots(self) -> Seq<u16> {
        match self {
            LayoutMode::Hidden => seq![],
            LayoutMode::Single => seq![25u16],
            LayoutMode::Double => seq![25u16, 25u16],
            LayoutMode::Triple => seq![25u16, 25u16, 25u16],
            LayoutMode::HalfAndQuarter => seq![50u16, 25u16],
            LayoutMode::Tall => seq![75u16],
        }
    }

    /// The template that follows this one when the user cycles through them.
    pub open spec fn spec_next(self) -> LayoutMode {
        match self {
            LayoutMode::Hidden => LayoutMode::Single,
            LayoutMode::Single => LayoutMode::Double,
            LayoutMode::Double => LayoutMode::Triple,
            LayoutMode::Triple => LayoutMode::HalfAndQuarter,
            LayoutMode::HalfAndQuarter => LayoutMode::Tall,
            LayoutMode::Tall => LayoutMode::Hidden,
        }
    }

    /// The height of each slot, top to bottom, in percent of the screen.
    pub fn slots(&self) -> (slots: Vec<u16>)
        ensures
            slots@ == self.spec_slots(),
    {
        let slots: Vec<u16> = match self {
            LayoutMode::Hidden => Vec::new(),
            LayoutMode::Single => vec![25],
            LayoutMode::Double => vec![25, 25],
            LayoutMode::Triple => vec![25, 25, 25],
            LayoutMode::HalfAndQuarter => vec![50, 25],
            LayoutMode::Tall => vec![75],
        };
        slots
    }

    /// The number of panels shown at once.
    pub fn slot_count(&self) -> (count: usize)
        ensures
            count == self.spec_slots().len(),
    {
        match self {
            LayoutMode::Hidden => 0,
            LayoutMode::Single => 1,
            LayoutMode::Double => 2,
            LayoutMode::Triple => 3,
            LayoutMode::HalfAndQuarter => 2,
            LayoutMode::Tall => 1,
        }
    }

    /// The template that follows this one when the user cycles through them.
    pub fn next(&self) -> (mode: LayoutMode)
        ensures
            mode == self.spec_next(),
    {
        match self {
            LayoutMode::Hidden => LayoutMode::Single,
            LayoutMode::Single => LayoutMode::Double,
            LayoutMode::Double => LayoutMode::Triple,
            LayoutMode::Triple => LayoutMode::HalfAndQuarter,
            LayoutMode::HalfAndQuarter => LayoutMode::Tall,
            LayoutMode::Tall => LayoutMode::Hidden,
        }
    }
}

/// Mathematical model of a [`LayoutRotator`].
pub struct LayoutModel {
    pub mode: LayoutMode,
    pub panel_kinds: Seq<Seq<char>>,
    pub rotation_offset: nat,
}

impl LayoutModel {
    /// There is a panel kind to show and the offset points at one.
    pub open spec fn wf(self) -> bool {
        self.rotation_offset < self.panel_kinds.len()
    }

    /// The panel kind that stands in slot `slot`.
    pub open spec fn panel_at(self, slot: int) -> Seq<char> {
        self.panel_kinds[wrapped(slot + self.rotation_offset as int, self.panel_kinds.len()) as int]
    }

    /// The panel kinds on screen, top to bottom: one per slot of the
    /// template, read in rotation from the offset on.
    pub open spec fn visible(self) -> Seq<Seq<char>> {
        Seq::new(self.mode.spec_slots().len(), |slot: int| self.panel_at(slot))
    }

    /// The layout after the panel kinds moved up by one slot.
    pub open spec fn rotate_forward(self) -> LayoutModel {
        LayoutModel {
            rotation_offset: wrapped(self.rotation_offset as int + 1, self.panel_kinds.len()),
            ..self
        }
    }

    /// The layout after the panel kinds moved down by one slot.
    pub open spec fn rotate_backward(self) -> LayoutModel {
        LayoutModel {
            rotation_offset: wrapped(self.rotation_offset as int - 1, self.panel_kinds.len()),
            ..self
        }
    }

    /// The layout with another template; the rotation stays.
    pub open spec fn set_mode(self, mode: LayoutMode) -> LayoutModel {
        LayoutModel { mode, ..self }
    }

    /// The layout after `n` rotations forward.
    pub open spec fn rotate_forward_n(self, n: nat) -> LayoutModel
        decreases n,
    {
        if n == 0 {
            self
        } else {
            self.rotate_forward_n((n - 1) as nat).rotate_forward()
        }
    }

    /// Rotating back undoes rotating forward, and the other way round.
    pub proof fn law_rotations_cancel(self)
        requires
            self.wf(),
        ensures
            self.rotate_forward().rotate_backward() == self,
            self.rotate_backward().rotate_forward() == self,
            self.rotate_forward().wf(),
            self.rotate_backward().wf(),
    {
        let len = self.panel_kinds.len();
        let offset = self.rotation_offset as int;
        lemma_wrapped_range(offset, len);
        lemma_wrapped_backward(offset + 1, len);
        lemma_wrapped_forward(offset - 1, len);
    }

    /// `n` rotations forward add `n` to the offset, modulo the number of panel kinds.
    pub proof fn lemma_rotate_forward_n(self, n: nat)
        requires
            self.wf(),
        ensures
            self.rotate_forward_n(n) == (LayoutModel {
                rotation_offset: wrapped(
                    self.rotation_offset as int + n as int,
                    self.panel_kinds.len(),
                ),
                ..self
            }),
        decreases n,
    {
        let len = self.panel_kinds.len();
        let offset = self.rotation_offset as int;
        if n == 0 {
            lemma_wrapped_range(offset, len);
        } else {
            self.lemma_rotate_forward_n((n - 1) as nat);
            lemma_wrapped_forward(offset + n - 1, len);
        }
    }

    /// As many rotations forward as there are panel kinds show the first layout again.
    pub proof fn law_rotation_cycles(self)
        requires
            self.wf(),
        ensures
            self.rotate_forward_n(self.panel_kinds.len()) == self,
    {
        let len = self.panel_kinds.len();
        self.lemma_rotate_forward_n(len);
        lemma_wrapped_turn(self.rotation_offset as int, len);
        lemma_wrapped_range(self.rotation_offset as int, len);
    }
}

/// The template in use, the panel kinds that take turns in its slots, and
/// how far they have been rotated.
pub struct LayoutRotator {
    mode: LayoutMode,
    panel_kinds: Vec<String>,
    rotation_offset: usize,
}

impl View for LayoutRotator {
    type V = LayoutModel;

    closed spec fn view(&self) -> LayoutModel {
        LayoutModel {
            mode: self.mode,
            panel_kinds: names_view(self.panel_kinds@),
            rotation_offset: self.rotation_offset as nat,
        }
    }
}

impl LayoutRotator {
    #[verifier::type_invariant]
    spec fn inv(self) -> bool {
        self.rotation_offset < self.panel_kinds.len()
    }

    /// A layout with template `mode` over `panel_kinds`, not rotated.
    pub fn new(mode: LayoutMode, panel_kinds: Vec<String>) -> (layout: Self)
        requires
            panel_kinds.len() > 0,
        ensures
            layout@ == (LayoutModel {
                mode,
                panel_kinds: names_view(panel_kinds@),
                rotation_offset: 0,
            }),
            layout@.wf(),
    {
        LayoutRotator { mode, panel_kinds, rotation_offset: 0 }
    }

    /// Moves every panel kind up by one slot; the one in the first slot leaves the screen.
    pub fn rotate_forward(&mut self)
        ensures
            final(self)@ == old(self)@.rotate_forward(),
            final(self)@.wf(),
    {
        proof {
            use_type_invariant(&*self);
            lemma_wrapped_range(self.rotation_offset as int, self.panel_kinds.len() as nat);
            lemma_wrapped_forward(self.rotation_offset as int, self.panel_kinds.len() as nat);
        }
        if self.rotation_offset + 1 == self.panel_kinds.len() {
            self.rotation_offset = 0;
        } else {
            self.rotation_offset = self.rotation_offset + 1;
        }
    }

    /// Moves every panel kind down by one slot.
    pub fn rotate_backward(&mut self)
        ensures
            final(self)@ == old(self)@.rotate_backward(),
            final(self)@.wf(),
    {
        proof {
            use_type_invariant(&*self);
            lemma_wrapped_range(self.rotation_offset as int, self.panel_kinds.len() as nat);
            lemma_wrapped_backward(self.rotation_offset as int, self.panel_kinds.len() as nat);
        }
        if self.rotation_offset == 0 {
            self.rotation_offset = self.panel_kinds.len() - 1;
        } else {
            self.rotation_offset = self.rotation_offset - 1;
        }
    }

    /// Replaces the template. The rotation is kept.
    pub fn set_mode(&mut self, mode: LayoutMode)
        ensures
            final(self)@ == old(self)@.set_mode(mode),
            final(self)@.wf(),
    {
        proof {
            use_type_invariant(&*self);
        }
        self.mode = mode;
    }

    /// The template in use.
    pub fn mode(&self) -> (mode: LayoutMode)
        ensures
            mode == self@.mode,
    {
        self.mode
    }

    /// The number of rotations forward that lead from the first layout to this one.
    pub fn rotation_offset(&self) -> (offset: usize)
        ensures
            offset == self@.rotation_offset,
            offset < self@.panel_kinds.len(),
    {
        proof {
            use_type_invariant(self);
        }
        self.rotation_offset
    }

    /// The panel kinds on screen, top to bottom.
    pub fn visible_panels(&self) -> (panels: Vec<&str>)
        ensures
            panels@.map_values(|name: &str| name@) == self@.visible(),
            panels@.len() == self@.mode.spec_slots().len(),
    {
        proof {
            use_type_invariant(self);
        }
        let count: usize = self.mode.slot_count();
        let len: usize = self.panel_kinds.len();
        let mut panels: Vec<&str> = Vec::new();
        let mut slot: usize = 0;
        let mut at: usize = self.rotation_offset;
        proof {
            lemma_wrapped_range(at as int, len as nat);
        }
        while slot < count
            invariant
                slot <= count,
                count == self@.mode.spec_slots().len(),
                len == self.panel_kinds.len(),
                len > 0,
                self.rotation_offset < len,
                at == wrapped(slot as int + self.rotation_offset as int, len as nat),
                panels@.len() == slot,
                forall|i: int| 0 <= i < slot ==> (#[trigger] panels@[i])@ == self@.panel_at(i),
            decreases count - slot,
        {
            proof {
                lemma_wrapped_forward(slot as int + self.rotation_offset as int, len as nat);
            }
            panels.push(self.panel_kinds[at].as_str());
            at = if at + 1 == len {
                0
            } else {
                at + 1
            };
            slot += 1;
        }
        panels
    }
}

} // verus!
