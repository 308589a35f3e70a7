use vstd::prelude::*;

verus! {

/// Which movement components an aim skill measures.
#[derive(Clone, Copy, Debug, PartialEq, Eq, Structural)]
pub enum AimType {
    /// Jump and flow aim, with the small-circle bonus.
    All,
    /// Flow aim only, with the small-circle bonus.
    Flow,
    /// Jump aim only, with the small-circle bonus.
    Jump,
    /// Jump and flow aim without the small-circle bonus.
    Raw,
}

impl AimType {
    pub open spec fn measures_jump(self) -> bool {
        self !is Flow
    }

    pub open spec fn measures_flow(self) -> bool {
        self !is Jump
    }

    pub open spec fn scales_small_circles(self) -> bool {
        self !is Raw
    }

    /// Whether the jump-aim value enters this skill's per-object difficulty.
    pub fn includes_jump(&self) -> (r: bool)
        ensures
            r == self.measures_jump(),
    {
        match self {
            AimType::Flow => false,
            _ => true,
        }
    }

    /// Whether the flow-aim value enters this skill's per-object difficulty.
    pub fn includes_flow(&self) -> (r: bool)
        ensures
            r == self.measures_flow(),
    {
        match self {
            AimType::Jump => false,
            _ => true,
        }
    }

    /// Whether the summed aim value is multiplied by the small-circle bonus.
    pub fn has_small_circle_bonus(&self) -> (r: bool)
        ensures
            r == self.scales_small_circles(),
    {
        match self {
            AimType::Raw => false,
            _ => true,
        }
    }
}

} // verus!
