//! Per-control mode state machine: momentary and latching buttons, latch
//! bookkeeping, and mutual-exclusion groups.  One `apply` call processes one
//! button reading of one tick and returns the state-change emissions it
//! produced, in order.

use vstd::prelude::*;
use crate::ident::ControlIdentifier;
use crate::lights::{Brightness, LightModel, BUTTON_COUNT};
use crate::settings::{ButtonConfig, ButtonMode};

verus! {

/// One outbound state change: the button and its new logical value
/// (`true` = 1, `false` = 0).
#[derive(Clone, Copy, Debug, PartialEq, Eq, Structural)]
pub struct Emission {
    pub id: ControlIdentifier,
    pub value: bool,
}

/// What one `apply` step does: the latch table and button lights after the
/// step, the emissions in order, the accepted value of the pressed button
/// itself (if any), and whether any light was written.
pub struct ButtonStep {
    pub latch: Seq<bool>,
    pub blights: Seq<Brightness>,
    pub emissions: Seq<Emission>,
    pub accepted: Option<bool>,
    pub lit: bool,
}

/// Index `j` belongs to exclusivity group `g`: configured latching with that
/// group id.
pub open spec fn is_member(cfgs: Seq<ButtonConfig>, j: int, g: u8) -> bool {
    &&& cfgs[j].mode is Latching
    &&& cfgs[j].group_id == Some(g)
}

/// The zero-valued emissions that forcing every group member but `i` off
/// produces, in index order, over the first `k` indices.
pub open spec fn reset_emissions(cfgs: Seq<ButtonConfig>, g: u8, i: int, k: nat) -> Seq<Emission>
    decreases k,
{
    if k == 0 {
        Seq::empty()
    } else {
        let rest = reset_emissions(cfgs, g, i, (k - 1) as nat);
        if k - 1 != i && is_member(cfgs, k - 1, g) {
            rest.push(
                Emission { id: ControlIdentifier::spec_from_index(k - 1), value: false },
            )
        } else {
            rest
        }
    }
}

/// The state machine's transition on one button reading.
///
/// Momentary: the light being lit stands for "was considered pressed"; any
/// mismatch with the reading emits the new value and drives the light to
/// `Normal` (pressed) or `Off` (released).
///
/// Latching: a press is accepted only while the light is not `Bright`
/// (`Bright` marks a latch accepted and still held).  Acceptance flips the
/// stored value; when the new value is true and the button sits in an
/// exclusivity group, every other member is first forced off (light `Off`,
/// emit 0).  The accepted button's light goes `Bright` and its new value is
/// emitted.  A release while the light is lit sets `Dim` when latched on,
/// `Off` otherwise, and emits nothing.
pub open spec fn apply_model(
    cfgs: Seq<ButtonConfig>,
    latch: Seq<bool>,
    blights: Seq<Brightness>,
    i: int,
    pressed: bool,
) -> ButtonStep {
    let unchanged = ButtonStep {
        latch,
        blights,
        emissions: Seq::empty(),
        accepted: None,
        lit: false,
    };
    match cfgs[i].mode {
        ButtonMode::Momentary => {
            let proxy = blights[i] != Brightness::Off;
            if pressed != proxy {
                ButtonStep {
                    latch,
                    blights: blights.update(
                        i,
                        if pressed {
                            Brightness::Normal
                        } else {
                            Brightness::Off
                        },
                    ),
                    emissions: seq![
                        Emission { id: ControlIdentifier::spec_from_index(i), value: pressed },
                    ],
                    accepted: Some(pressed),
                    lit: true,
                }
            } else {
                unchanged
            }
        },
        ButtonMode::Latching => {
            if pressed {
                if blights[i] != Brightness::Bright {
                    let v = !latch[i];
                    if v && cfgs[i].group_id is Some {
                        let g = cfgs[i].group_id->0;
                        ButtonStep {
                            latch: Seq::new(
                                latch.len(),
                                |t: int|
                                    if t == i {
                                        true
                                    } else if is_member(cfgs, t, g) {
                                        false
                                    } else {
                                        latch[t]
                                    },
                            ),
                            blights: Seq::new(
                                blights.len(),
                                |t: int|
                                    if t == i {
                                        Brightness::Bright
                                    } else if is_member(cfgs, t, g) {
                                        Brightness::Off
                                    } else {
                                        blights[t]
                                    },
                            ),
                            emissions: reset_emissions(cfgs, g, i, BUTTON_COUNT as nat).push(
                                Emission {
                                    id: ControlIdentifier::spec_from_index(i),
                                    value: true,
                                },
                            ),
                            accepted: Some(true),
                            lit: true,
                        }
                    } else {
                        ButtonStep {
                            latch: latch.update(i, v),
                            blights: blights.update(i, Brightness::Bright),
                            emissions: seq![
                                Emission {
                                    id: ControlIdentifier::spec_from_index(i),
                                    value: v,
                                },
                            ],
                            accepted: Some(v),
                            lit: true,
                        }
                    }
                } else {
                    unchanged
                }
            } else {
                if blights[i] != Brightness::Off {
                    ButtonStep {
                        latch,
                        blights: blights.update(
                            i,
                            if latch[i] {
                                Brightness::Dim
                            } else {
                                Brightness::Off
                            },
                        ),
                        emissions: Seq::empty(),
                        accepted: None,
                        lit: true,
                    }
                } else {
                    unchanged
                }
            }
        },
    }
}

/// Latch bookkeeping plus the immutable per-button configuration table.
pub struct ButtonStateMachine {
    pub configs: Vec<ButtonConfig>,
    pub latch: Vec<bool>,
}

impl ButtonStateMachine {
    /// One table entry per button.
    pub open spec fn wf(&self) -> bool {
        &&& self.configs@.len() == BUTTON_COUNT
        &&& self.latch@.len() == BUTTON_COUNT
    }

    /// Starts with every latch off.
    pub fn new(configs: Vec<ButtonConfig>) -> (r: ButtonStateMachine)
        requires
            configs@.len() == BUTTON_COUNT,
        ensures
            r.wf(),
            r.configs@ == configs@,
            forall|i: int| 0 <= i < BUTTON_COUNT ==> !r.latch@[i],
    {
        let mut latch: Vec<bool> = Vec::new();
        let mut k: usize = 0;
        while k < BUTTON_COUNT
            invariant
                k <= BUTTON_COUNT,
                latch@.len() == k,
                forall|i: int| 0 <= i < k ==> !latch@[i],
            decreases BUTTON_COUNT - k,
        {
            latch.push(false);
            k = k + 1;
        }
        ButtonStateMachine { configs, latch }
    }

    /// Runs one button reading through the state machine, updating the latch
    /// table and the button lights exactly as `apply_model` says, and
    /// returning the emissions in order together with the accepted value of
    /// the pressed button itself.
    #[verifier::rlimit(100)]
    pub fn apply(&mut self, lights: &mut LightModel, id: ControlIdentifier, pressed: bool) -> (r:
        (Vec<Emission>, Option<bool>))
        requires
            old(self).wf(),
            old(lights).wf(),
        ensures
            final(self).wf(),
            final(lights).wf(),
            final(self).configs@ == old(self).configs@,
            ({
                let m = apply_model(
                    old(self).configs@,
                    old(self).latch@,
                    old(lights).buttons@,
                    id.spec_index(),
                    pressed,
                );
                &&& final(self).latch@ == m.latch
                &&& final(lights).buttons@ == m.blights
                &&& r.0@ == m.emissions
                &&& r.1 == m.accepted
                &&& final(lights).dirty == (old(lights).dirty || m.lit)
            }),
            final(lights).pads@ == old(lights).pads@,
            final(lights).slider@ == old(lights).slider@,
    {
        let i = id.index();
        proof {
            crate::ident::lemma_index_roundtrip(id);
        }
        let cfg = self.configs[i];
        match cfg.mode {
            ButtonMode::Momentary => {
                let proxy = lights.get_button(i) != Brightness::Off;
                if pressed != proxy {
                    lights.set_button(
                        i,
                        if pressed {
                            Brightness::Normal
                        } else {
                            Brightness::Off
                        },
                    );
                    let mut em: Vec<Emission> = Vec::new();
                    em.push(Emission { id, value: pressed });
                    proof {
                        assert(em@ =~= seq![Emission { id, value: pressed }]);
                    }
                    (em, Some(pressed))
                } else {
                    let em: Vec<Emission> = Vec::new();
                    proof {
                        assert(em@ =~= Seq::<Emission>::empty());
                    }
                    (em, None)
                }
            },
            ButtonMode::Latching => {
                if pressed {
                    if lights.get_button(i) != Brightness::Bright {
                        let v = !self.latch[i];
                        let group = if v {
                            cfg.group_id
                        } else {
                            None
                        };
                        match group {
                            Some(g) => {
                                let ghost cfgs0 = self.configs@;
                                let ghost latch0 = self.latch@;
                                let ghost blights0 = lights.buttons@;
                                let mut em: Vec<Emission> = Vec::new();
                                proof {
                                    assert(em@ =~= reset_emissions(cfgs0, g, i as int, 0));
                                }
                                let mut j: usize = 0;
                                while j < BUTTON_COUNT
                                    invariant
                                        j <= BUTTON_COUNT,
                                        0 <= i < BUTTON_COUNT,
                                        self.wf(),
                                        lights.wf(),
                                        self.configs@ == cfgs0,
                                        latch0.len() == BUTTON_COUNT,
                                        blights0.len() == BUTTON_COUNT,
                                        em@ == reset_emissions(cfgs0, g, i as int, j as nat),
                                        self.latch@ == Seq::new(
                                            latch0.len(),
                                            |t: int|
                                                if 0 <= t < j && t != i && is_member(cfgs0, t, g) {
                                                    false
                                                } else {
                                                    latch0[t]
                                                },
                                        ),
                                        lights.buttons@ == Seq::new(
                                            blights0.len(),
                                            |t: int|
                                                if 0 <= t < j && t != i && is_member(cfgs0, t, g) {
                                                    Brightness::Off
                                                } else {
                                                    blights0[t]
                                                },
                                        ),
                                        lights.pads@ == old(lights).pads@,
                                        lights.slider@ == old(lights).slider@,
                                    decreases BUTTON_COUNT - j,
                                {
                                    let member = j != i && self.configs[j].mode
                                        == ButtonMode::Latching && (match self.configs[j].group_id {
                                        Some(x) => x == g,
                                        None => false,
                                    });
                                    if member {
                                        self.latch.set(j, false);
                                        lights.set_button(j, Brightness::Off);
                                        let other = ControlIdentifier::from_index(j).unwrap();
                                        em.push(Emission { id: other, value: false });
                                    }
                                    proof {
                                        assert(self.latch@ =~= Seq::new(
                                            latch0.len(),
                                            |t: int|
                                                if 0 <= t < j + 1 && t != i && is_member(
                                                    cfgs0,
                                                    t,
                                                    g,
                                                ) {
                                                    false
                                                } else {
                                                    latch0[t]
                                                },
                                        ));
                                        assert(lights.buttons@ =~= Seq::new(
                                            blights0.len(),
                                            |t: int|
                                                if 0 <= t < j + 1 && t != i && is_member(
                                                    cfgs0,
                                                    t,
                                                    g,
                                                ) {
                                                    Brightness::Off
                                                } else {
                                                    blights0[t]
                                                },
                                        ));
                                        assert(em@ == reset_emissions(
                                            cfgs0,
                                            g,
                                            i as int,
                                            (j + 1) as nat,
                                        ));
                                    }
                                    j = j + 1;
                                }
                                self.latch.set(i, true);
                                lights.set_button(i, Brightness::Bright);
                                em.push(Emission { id, value: true });
                                proof {
                                    let m = apply_model(cfgs0, latch0, blights0, i as int, pressed);
                                    assert(self.latch@ =~= m.latch);
                                    assert(lights.buttons@ =~= m.blights);
                                }
                                (em, Some(true))
                            },
                            None => {
                                self.latch.set(i, v);
                                lights.set_button(i, Brightness::Bright);
                                let mut em: Vec<Emission> = Vec::new();
                                em.push(Emission { id, value: v });
                                proof {
                                    assert(em@ =~= seq![Emission { id, value: v }]);
                                }
                                (em, Some(v))
                            },
                        }
                    } else {
                        let em: Vec<Emission> = Vec::new();
                        proof {
                            assert(em@ =~= Seq::<Emission>::empty());
                        }
                        (em, None)
                    }
                } else {
                    if lights.get_button(i) != Brightness::Off {
                        lights.set_button(
                            i,
                            if self.latch[i] {
                                Brightness::Dim
                            } else {
                                Brightness::Off
                            },
                        );
                        let em: Vec<Emission> = Vec::new();
                        proof {
                            assert(em@ =~= Seq::<Emission>::empty());
                        }
                        (em, None)
                    } else {
                        let em: Vec<Emission> = Vec::new();
                        proof {
                            assert(em@ =~= Seq::<Emission>::empty());
                        }
                        (em, None)
                    }
                }
            },
        }
    }
}

/// At most one latched-on member in any exclusivity group.
pub open spec fn group_exclusive(cfgs: Seq<ButtonConfig>, latch: Seq<bool>) -> bool {
    forall|a: int, b: int|
        0 <= a < latch.len() && 0 <= b < latch.len() && a != b && cfgs[a].mode is Latching
            && cfgs[b].mode is Latching && cfgs[a].group_id is Some && cfgs[a].group_id
            == cfgs[b].group_id ==> !(latch[a] && latch[b])
}

/// Law: a momentary button, starting with its light off, emits exactly
/// 1 on press and then 0 on release, and the release returns its light to
/// off.
pub proof fn lemma_momentary_press_release(
    cfgs: Seq<ButtonConfig>,
    latch: Seq<bool>,
    blights: Seq<Brightness>,
    i: int,
)
    requires
        cfgs.len() == BUTTON_COUNT,
        latch.len() == BUTTON_COUNT,
        blights.len() == BUTTON_COUNT,
        0 <= i < BUTTON_COUNT,
        cfgs[i].mode is Momentary,
        blights[i] == Brightness::Off,
    ensures
        ({
            let press = apply_model(cfgs, latch, blights, i, true);
            let release = apply_model(cfgs, press.latch, press.blights, i, false);
            &&& press.emissions + release.emissions =~= seq![
                Emission { id: ControlIdentifier::spec_from_index(i), value: true },
                Emission { id: ControlIdentifier::spec_from_index(i), value: false },
            ]
            &&& release.blights[i] == Brightness::Off
        }),
{
}

/// Law: one step of the state machine preserves "at most one latched-on
/// member per exclusivity group".
pub proof fn lemma_group_invariant_preserved(
    cfgs: Seq<ButtonConfig>,
    latch: Seq<bool>,
    blights: Seq<Brightness>,
    i: int,
    pressed: bool,
)
    requires
        cfgs.len() == BUTTON_COUNT,
        latch.len() == BUTTON_COUNT,
        blights.len() == BUTTON_COUNT,
        0 <= i < BUTTON_COUNT,
        group_exclusive(cfgs, latch),
    ensures
        group_exclusive(cfgs, apply_model(cfgs, latch, blights, i, pressed).latch),
{
    let m = apply_model(cfgs, latch, blights, i, pressed);
    assert forall|a: int, b: int|
        0 <= a < m.latch.len() && 0 <= b < m.latch.len() && a != b && cfgs[a].mode is Latching
            && cfgs[b].mode is Latching && cfgs[a].group_id is Some && cfgs[a].group_id
            == cfgs[b].group_id implies !(m.latch[a] && m.latch[b]) by {
        assert(!(latch[a] && latch[b]));
    }
}

/// Law: in an exclusivity group, activating member A and then member B
/// leaves B latched on and every other member of the group latched off.
pub proof fn lemma_group_activation(
    cfgs: Seq<ButtonConfig>,
    latch: Seq<bool>,
    blights: Seq<Brightness>,
    a: int,
    b: int,
    g: u8,
)
    requires
        cfgs.len() == BUTTON_COUNT,
        latch.len() == BUTTON_COUNT,
        blights.len() == BUTTON_COUNT,
        0 <= a < BUTTON_COUNT,
        0 <= b < BUTTON_COUNT,
        a != b,
        is_member(cfgs, a, g),
        is_member(cfgs, b, g),
        !latch[a],
        blights[a] != Brightness::Bright,
    ensures
        ({
            let first = apply_model(cfgs, latch, blights, a, true);
            let second = apply_model(cfgs, first.latch, first.blights, b, true);
            &&& second.latch[b]
            &&& forall|j: int|
                0 <= j < BUTTON_COUNT && j != b && is_member(cfgs, j, g) ==> !second.latch[j]
        }),
{
}

} // verus!
