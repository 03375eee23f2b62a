//! Drawing tablets.
use vstd::prelude::*;

use crate::state::{Fht, State};

verus! {

/// Which surface a tool comes near to, or that it goes away.
#[derive(Clone, Copy, Debug, PartialEq, Eq, Structural)]
pub enum Proximity {
    Nothing,
    /// The tool comes near to the surface.
    In(u64),
    /// The tool goes away.
    Out,
}

/// The output that tablets are mapped to: the first one.
pub open spec fn tablet_output(fht: Fht) -> Option<u64> {
    if fht.outputs@.len() == 0 {
        None
    } else {
        Some(fht.outputs@[0].id)
    }
}

impl State {
    /// The output that tablets are mapped to, if there is any.
    pub fn tablet_target(&self) -> (output: Option<u64>)
        ensures
            output == tablet_output(self.fht),
    {
        if self.fht.outputs.len() == 0 {
            None
        } else {
            Some(self.fht.outputs[0].id)
        }
    }

    /// A tool moved. Returns whether the tool tells the surface under it; the pointer moves along
    /// in any case, as long as there is an output.
    pub fn on_tablet_tool_axis(&self, tablet: bool, tool: bool) -> (r: Option<bool>)
        ensures
            r == if tablet_output(self.fht) is None {
                None
            } else {
                Some(tablet && tool)
            },
    {
        match self.tablet_target() {
            Some(_) => Some(tablet && tool),
            None => None,
        }
    }

    /// A tool came near to the tablet, or went away from it. `under` is the surface under the
    /// tool; `tablet` and `tool` tell whether the two are known.
    pub fn on_tablet_tool_proximity(
        &self,
        under: Option<u64>,
        tablet: bool,
        tool: bool,
        near: bool,
    ) -> (r: Proximity)
        ensures
            r == if tablet_output(self.fht) is Some && under is Some && tablet && tool {
                if near {
                    Proximity::In(under->0)
                } else {
                    Proximity::Out
                }
            } else {
                Proximity::Nothing
            },
    {
        match (self.tablet_target(), under) {
            (Some(_), Some(surface)) => if tablet && tool {
                if near {
                    Proximity::In(surface)
                } else {
                    Proximity::Out
                }
            } else {
                Proximity::Nothing
            },
            _ => Proximity::Nothing,
        }
    }

    /// A tool touched the tablet, or was lifted from it. Returns whether the keyboard focus has
    /// to be updated, which is the case when a known tool comes down.
    pub fn on_tablet_tool_tip(&self, tool: bool, down: bool) -> (update_focus: bool)
        ensures
            update_focus == (tool && down),
    {
        tool && down
    }
}

/// Tablets are mapped to the first output, and a tool does nothing while there is none. A surface is
/// told about a tool only if both the tablet and the tool are known.
pub proof fn tablets_are_mapped_to_the_first_output(
    state: &State,
    tablet: bool,
    tool: bool,
    near: bool,
    under: Option<u64>,
    output: Option<u64>,
    axis: Option<bool>,
    proximity: Proximity,
)
    requires
        call_ensures(State::tablet_target, (state,), output),
        call_ensures(State::on_tablet_tool_axis, (state, tablet, tool), axis),
        call_ensures(
            State::on_tablet_tool_proximity,
            (state, under, tablet, tool, near),
            proximity,
        ),
    ensures
        state.fht.outputs@.len() == 0 ==> output is None && axis is None && proximity is Nothing,
        state.fht.outputs@.len() > 0 ==> {
            &&& output == Some(state.fht.outputs@[0].id)
            &&& axis == Some(tablet && tool)
            &&& !(tablet && tool) || under is None ==> proximity is Nothing
            &&& tablet && tool && under is Some && near ==> proximity == Proximity::In(under->0)
            &&& tablet && tool && under is Some && !near ==> proximity is Out
        },
{
}

/// The keyboard focus is updated when a known tool comes down, and only then.
pub proof fn tips_update_the_focus(state: &State, tool: bool, down: bool, update: bool)
    requires
        call_ensures(State::on_tablet_tool_tip, (state, tool, down), update),
    ensures
        update <==> tool && down,
{
}

} // verus!
