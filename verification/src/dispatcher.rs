//! The bank of four charger units and the routing of decoded frames.
//!
//! Each successfully decoded frame is offered to the units in their fixed
//! order; the first to answer supplies the reply.  When every unit refuses,
//! the frame is dropped silently: no exception reply goes out.

use vstd::prelude::*;

use crate::ev_charger::{
    spec_charger_wf, spec_query_post, spec_query_result, EVCharger,
};
use crate::modbus::ModbusFrame;

verus! {

/// The four charger units in their dispatch order.
#[derive(Clone, Copy, Debug)]
pub struct ChargerBank {
    pub units: [EVCharger; 4],
}

/// Each unit is sound and sits on its own front-panel bank.
pub open spec fn spec_bank_wf(b: ChargerBank) -> bool {
    forall|i: int|
        0 <= i < 4 ==> spec_charger_wf(#[trigger] b.units[i]) && b.units[i].ui_bank == i
}

/// Whether a unit answers a frame: its id matches and the request shape
/// and command/address pair are legal for it.
pub open spec fn spec_claims(u: EVCharger, f: ModbusFrame) -> bool {
    spec_query_result(u, f) is Ok
}

/// The reply a unit gives to a frame it claims.
pub open spec fn spec_claimed_reply(u: EVCharger, f: ModbusFrame) -> Option<ModbusFrame> {
    match spec_query_result(u, f) {
        Ok(reply) => Some(reply),
        Err(_) => None,
    }
}

/// What the bank replies: the answer of the first unit in order that
/// claims the frame, or nothing when no unit does.
pub open spec fn spec_dispatch_result(b: ChargerBank, f: ModbusFrame) -> Option<ModbusFrame> {
    if spec_claims(b.units[0], f) {
        spec_claimed_reply(b.units[0], f)
    } else if spec_claims(b.units[1], f) {
        spec_claimed_reply(b.units[1], f)
    } else if spec_claims(b.units[2], f) {
        spec_claimed_reply(b.units[2], f)
    } else if spec_claims(b.units[3], f) {
        spec_claimed_reply(b.units[3], f)
    } else {
        None
    }
}

/// How the bank changes: only the first claiming unit is touched, by its
/// own query transition; a frame no unit claims changes nothing.
pub open spec fn spec_dispatch_units(units: Seq<EVCharger>, f: ModbusFrame) -> Seq<EVCharger>
    recommends
        units.len() == 4,
{
    if spec_claims(units[0], f) {
        units.update(0, spec_query_post(units[0], f))
    } else if spec_claims(units[1], f) {
        units.update(1, spec_query_post(units[1], f))
    } else if spec_claims(units[2], f) {
        units.update(2, spec_query_post(units[2], f))
    } else if spec_claims(units[3], f) {
        units.update(3, spec_query_post(units[3], f))
    } else {
        units
    }
}

/// With pairwise-distinct identifiers, routing is by identifier alone:
/// whichever unit carries the frame's id and accepts the request supplies
/// the reply and is the only unit the dispatch touches, wherever it sits
/// in the order.
pub proof fn lemma_dispatch_routes_by_id(b: ChargerBank, f: ModbusFrame, i: int)
    requires
        0 <= i < 4,
        forall|p: int, q: int|
            0 <= p < q < 4 ==> #[trigger] b.units[p].unit_id != #[trigger] b.units[q].unit_id,
        b.units[i].unit_id == f.unit_id,
        spec_claims(b.units[i], f),
    ensures
        spec_dispatch_result(b, f) == spec_claimed_reply(b.units[i], f),
        spec_dispatch_units(b.units@, f) == b.units@.update(i, spec_query_post(b.units[i], f)),
{
    assert forall|j: int| 0 <= j < 4 && j != i implies !spec_claims(b.units[j], f) by {
        assert(b.units[j].unit_id != f.unit_id);
    }
}

impl ChargerBank {
    /// The boot configuration: unit `i + 1` on front-panel bank `i`.
    pub fn new() -> (r: Self)
        ensures
            spec_bank_wf(r),
            forall|i: int|
                0 <= i < 4 ==> (#[trigger] r.units[i]).unit_id == i + 1 && r.units[i].registers
                    == crate::ev_charger::spec_default_registers(),
    {
        let r = ChargerBank {
            units: [
                EVCharger::new(1, 0),
                EVCharger::new(2, 1),
                EVCharger::new(3, 2),
                EVCharger::new(4, 3),
            ],
        };
        r
    }

    /// Offers one decoded frame to the units in their fixed order and
    /// hands back the first reply; a frame no unit claims is dropped and
    /// changes nothing.
    pub fn dispatch(&mut self, frame: &ModbusFrame) -> (r: Option<ModbusFrame>)
        ensures
            r == spec_dispatch_result(*old(self), *frame),
            final(self).units@ == spec_dispatch_units(old(self).units@, *frame),
    {
        let mut u = self.units[0];
        let r = u.query(frame);
        self.units[0] = u;
        if let Ok(reply) = r {
            proof {
                assert(self.units@ =~= spec_dispatch_units(old(self).units@, *frame));
            }
            return Some(reply);
        }

        let mut u = self.units[1];
        let r = u.query(frame);
        self.units[1] = u;
        if let Ok(reply) = r {
            proof {
                assert(self.units@ =~= spec_dispatch_units(old(self).units@, *frame));
            }
            return Some(reply);
        }

        let mut u = self.units[2];
        let r = u.query(frame);
        self.units[2] = u;
        if let Ok(reply) = r {
            proof {
                assert(self.units@ =~= spec_dispatch_units(old(self).units@, *frame));
            }
            return Some(reply);
        }

        let mut u = self.units[3];
        let r = u.query(frame);
        self.units[3] = u;
        if let Ok(reply) = r {
            proof {
                assert(self.units@ =~= spec_dispatch_units(old(self).units@, *frame));
            }
            return Some(reply);
        }

        proof {
            assert(self.units@ =~= spec_dispatch_units(old(self).units@, *frame));
        }
        None
    }
}

} // verus!
