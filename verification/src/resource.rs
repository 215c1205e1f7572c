//! Operand resources for the instruction objects: a destination names a
//! core memory location (or discards), and a source is a literal or a
//! readable resource.

use crate::machine::{Core, CoreModel};
use vstd::prelude::*;

verus! {

/// The destination types of a move command.
pub enum DestType {
    /// Reference the `acc` register of a core.
    Acc,
    /// Throw the value away.
    Nil,
    /// Write to the peer above.
    Up,
    /// Write to the peer below.
    Down,
    /// Write to the peer on the left.
    Left,
    /// Write to the peer on the right.
    Right,
}

/// The source types of a move command.
pub enum SrcType {
    /// An actual number.
    Literal(i16),
    /// A readable storage location.
    Resource(DestType),
}

/// What a source read may yield: literals and register reads are pinned
/// down, a port read may yield anything.
pub open spec fn src_gives(s: &SrcType, m: CoreModel, v: i16) -> bool {
    match s {
        SrcType::Literal(l) => v == l,
        SrcType::Resource(DestType::Acc) => v as int == m.acc,
        SrcType::Resource(DestType::Nil) => v == 0,
        SrcType::Resource(_) => true,
    }
}

/// What delivering `v` to a destination does to the core's model: `Acc`
/// stores it, everything else (a port send, or a discard) leaves the
/// model unchanged.
pub open spec fn dest_effect(d: &DestType, pre: CoreModel, v: i16, post: CoreModel) -> bool {
    match d {
        DestType::Acc => post == (CoreModel { acc: v as int, ..pre }),
        _ => post == pre,
    }
}

impl DestType {
    /// Send a value to a core memory destination.
    pub fn write(&self, value: i16, core: &mut Core)
        ensures
            dest_effect(self, old(core)@, value, final(core)@),
    {
        match self {
            DestType::Acc => core.acc = value,
            DestType::Nil => {}
            DestType::Up => core.up.write(value),
            DestType::Down => core.down.write(value),
            DestType::Left => core.left.write(value),
            DestType::Right => core.right.write(value),
        }
    }
}

impl SrcType {
    /// Read a value from a core memory source.
    pub fn read(&self, core: &Core) -> (r: i16)
        ensures
            src_gives(self, core@, r),
    {
        match self {
            SrcType::Literal(val) => *val,
            SrcType::Resource(DestType::Acc) => core.acc,
            SrcType::Resource(DestType::Up) => core.up.read(),
            SrcType::Resource(DestType::Down) => core.down.read(),
            SrcType::Resource(DestType::Left) => core.left.read(),
            SrcType::Resource(DestType::Right) => core.right.read(),
            SrcType::Resource(DestType::Nil) => 0,
        }
    }
}

} // verus!
