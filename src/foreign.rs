//! Typed handles to structures of the target and the address arithmetic that
//! reads them: field addresses, views of one layout through another, virtual
//! table slots, and pointer chains that stop at the first null pointer. The
//! reads themselves are done by the caller, inside the target, with the
//! addresses computed here.

use vstd::prelude::*;
use crate::layout::{StructKind, Field, Slot, ArgShape, RetShape, GlobalAddresses, field_table,
    slot_table, struct_table, field_spec, slot_spec, struct_spec};

verus! {

/// A non-null address in the target, read as a structure of one kind. It owns
/// nothing: the target decides how long the structure lives.
#[derive(Clone, Copy, Debug, PartialEq, Eq, Structural)]
pub struct ForeignHandle {
    kind: StructKind,
    address: u64,
}

/// A structure of kind `k` carries the fields and virtual methods of `owner`:
/// it is `owner`, or `owner` is its base.
pub open spec fn has_members_of(k: StructKind, owner: StructKind) -> bool {
    k == owner || struct_table(k).base == Some(owner)
}

/// A handle of kind `from` may be read as `to`: the layouts are the same, or
/// one is the base (a prefix) of the other.
pub open spec fn layouts_compatible(from: StructKind, to: StructKind) -> bool {
    from == to || struct_table(from).base == Some(to) || struct_table(to).base == Some(from)
}

impl ForeignHandle {
    pub closed spec fn spec_kind(&self) -> StructKind {
        self.kind
    }

    pub closed spec fn spec_address(&self) -> u64 {
        self.address
    }

    pub closed spec fn wf(&self) -> bool {
        self.address != 0
    }

    /// A handle to the structure at `address`; `None` for a null address.
    pub fn from_address(kind: StructKind, address: u64) -> (r: Option<ForeignHandle>)
        ensures
            r is None <==> address == 0,
            r matches Some(h) ==> h.wf() && h.spec_kind() == kind && h.spec_address() == address,
    {
        if address == 0 {
            None
        } else {
            Some(ForeignHandle { kind, address })
        }
    }

    pub fn kind(&self) -> (r: StructKind)
        ensures
            r == self.spec_kind(),
    {
        self.kind
    }

    pub fn address(&self) -> (r: u64)
        requires
            self.wf(),
        ensures
            r == self.spec_address(),
            r != 0,
    {
        self.address
    }

    /// The same structure read as `to`, where the layouts are compatible and
    /// the address is aligned for `to`.
    pub fn view_as(&self, to: StructKind) -> (r: Option<ForeignHandle>)
        requires
            self.wf(),
        ensures
            r is Some <==> layouts_compatible(self.spec_kind(), to)
                && self.spec_address() % struct_table(to).align == 0,
            r matches Some(v) ==> v.wf() && v.spec_kind() == to && v.spec_address() == self.spec_address(),
    {
        let from = struct_spec(self.kind);
        let target = struct_spec(to);
        let compatible = self.kind == to || from.base == Some(to) || target.base == Some(self.kind);
        if compatible && self.address % target.align == 0 {
            Some(ForeignHandle { kind: to, address: self.address })
        } else {
            None
        }
    }

    /// The address of `field` in this structure; `None` where the structure
    /// has no such field or the address would overflow.
    pub fn field_address(&self, field: Field) -> (r: Option<u64>)
        requires
            self.wf(),
        ensures
            r is Some <==> has_members_of(self.spec_kind(), field_table(field).owner)
                && self.spec_address() + field_table(field).offset <= u64::MAX,
            r matches Some(a) ==> a == self.spec_address() + field_table(field).offset,
    {
        let f = field_spec(field);
        let s = struct_spec(self.kind);
        if !(self.kind == f.owner || s.base == Some(f.owner)) {
            return None;
        }
        if f.offset > u64::MAX - self.address {
            return None;
        }
        Some(self.address + f.offset)
    }

    /// What calling `slot` on this structure takes: `None` where the
    /// structure's table has no such method.
    pub fn prepare_call(&self, slot: Slot) -> (r: Option<PreparedCall>)
        requires
            self.wf(),
        ensures
            r is Some <==> has_members_of(self.spec_kind(), slot_table(slot).owner),
            r matches Some(c) ==> c == (PreparedCall {
                receiver: self.spec_address(),
                index: slot_table(slot).index,
                arg: slot_table(slot).arg,
                ret: slot_table(slot).ret,
            }),
    {
        let sl = slot_spec(slot);
        let s = struct_spec(self.kind);
        if self.kind == sl.owner || s.base == Some(sl.owner) {
            Some(PreparedCall { receiver: self.address, index: sl.index, arg: sl.arg, ret: sl.ret })
        } else {
            None
        }
    }
}

/// A virtual call ready to be made: the receiver, the slot of its table and
/// the signature. The receiver's first word points to the table.
#[derive(Clone, Copy, Debug, PartialEq, Eq, Structural)]
pub struct PreparedCall {
    pub receiver: u64,
    pub index: u32,
    pub arg: ArgShape,
    pub ret: RetShape,
}

/// The address of entry `index` of the virtual table at `vtable`.
pub open spec fn slot_entry(vtable: u64, index: u32) -> int {
    vtable + 8 * index
}

/// The address of entry `index` of the table at `vtable`; `None` for a null
/// table or an address past the end of the address space.
pub fn slot_entry_address(vtable: u64, index: u32) -> (r: Option<u64>)
    ensures
        r is Some <==> vtable != 0 && slot_entry(vtable, index) <= u64::MAX,
        r matches Some(a) ==> a == slot_entry(vtable, index),
{
    let step = 8u64 * index as u64;
    if vtable == 0 || step > u64::MAX - vtable {
        None
    } else {
        Some(vtable + step)
    }
}

/// The next step of a pointer chain.
#[derive(Clone, Copy, Debug, PartialEq, Eq, Structural)]
pub enum ChaseStep {
    /// Read the pointer-sized word at this address and feed it back.
    Read { address: u64 },
    /// The chain ends at this non-null pointer.
    Found { pointer: u64 },
    /// A pointer on the way was null (or an address overflowed).
    NotFound,
}

/// Where a chain that starts at `base` and adds `offsets[k]` before its
/// `k`-th read stands once the words `values` have been read.
pub open spec fn chase_next(base: u64, offsets: Seq<u64>, values: Seq<u64>) -> ChaseStep {
    let k = values.len();
    let p = if k == 0 { base } else { values[k - 1] };
    if p == 0 {
        ChaseStep::NotFound
    } else if k >= offsets.len() {
        ChaseStep::Found { pointer: p }
    } else if p + offsets[k as int] > u64::MAX {
        ChaseStep::NotFound
    } else {
        ChaseStep::Read { address: (p + offsets[k as int]) as u64 }
    }
}

/// Following a chain of pointers through the target.
pub struct Chase {
    base: u64,
    offsets: Vec<u64>,
    values: Vec<u64>,
}

impl Chase {
    pub closed spec fn spec_base(&self) -> u64 {
        self.base
    }

    pub closed spec fn spec_offsets(&self) -> Seq<u64> {
        self.offsets@
    }

    pub closed spec fn spec_values(&self) -> Seq<u64> {
        self.values@
    }

    /// Every word was read where the chain asked for it.
    pub open spec fn wf(&self) -> bool {
        forall|k: int| 0 <= k < self.spec_values().len() ==>
            #[trigger] chase_next(self.spec_base(), self.spec_offsets(), self.spec_values().take(k)) is Read
    }

    /// A chain from `base` through `offsets`: each offset is added to the
    /// current pointer and the word there becomes the next pointer.
    pub fn new(base: u64, offsets: Vec<u64>) -> (r: Chase)
        ensures
            r.wf(),
            r.spec_base() == base,
            r.spec_offsets() == offsets@,
            r.spec_values() == Seq::<u64>::empty(),
    {
        Chase { base, offsets, values: Vec::new() }
    }

    pub fn step(&self) -> (r: ChaseStep)
        ensures
            r == chase_next(self.spec_base(), self.spec_offsets(), self.spec_values()),
    {
        let k = self.values.len();
        let p = if k == 0 { self.base } else { self.values[k - 1] };
        if p == 0 {
            ChaseStep::NotFound
        } else if k >= self.offsets.len() {
            ChaseStep::Found { pointer: p }
        } else if self.offsets[k] > u64::MAX - p {
            ChaseStep::NotFound
        } else {
            ChaseStep::Read { address: p + self.offsets[k] }
        }
    }

    /// Takes in the word that the pending `Read` asked for.
    pub fn feed(&mut self, value: u64) -> (r: ChaseStep)
        requires
            old(self).wf(),
            chase_next(old(self).spec_base(), old(self).spec_offsets(), old(self).spec_values()) is Read,
        ensures
            final(self).wf(),
            final(self).spec_base() == old(self).spec_base(),
            final(self).spec_offsets() == old(self).spec_offsets(),
            final(self).spec_values() == old(self).spec_values().push(value),
            r == chase_next(final(self).spec_base(), final(self).spec_offsets(), final(self).spec_values()),
    {
        let ghost before = self.values@;
        self.values.push(value);
        proof {
            assert forall|k: int| 0 <= k < self.values@.len() implies
                #[trigger] chase_next(self.base, self.offsets@, self.values@.take(k)) is Read by {
                if k < before.len() {
                    assert(self.values@.take(k) =~= before.take(k));
                } else {
                    assert(self.values@.take(k) =~= before);
                }
            }
        }
        self.step()
    }
}

/// A chain reports a pointer only where every pointer it went through was
/// non-null: a null at any hop ends it as not found.
pub proof fn lemma_found_means_no_null(base: u64, offsets: Seq<u64>, values: Seq<u64>)
    requires
        forall|k: int| 0 <= k < values.len() ==> #[trigger] chase_next(base, offsets, values.take(k)) is Read,
        chase_next(base, offsets, values) is Found,
    ensures
        base != 0,
        forall|k: int| 0 <= k < values.len() ==> values[k] != 0,
        chase_next(base, offsets, values)->pointer != 0,
{
    if values.len() > 0 {
        assert(values.take(0) =~= Seq::<u64>::empty());
        assert(chase_next(base, offsets, values.take(0)) is Read);
    }
    assert forall|k: int| 0 <= k < values.len() implies values[k] != 0 by {
        if k + 1 < values.len() {
            let t = values.take(k + 1);
            assert(chase_next(base, offsets, t) is Read);
            assert(t[k] == values[k]);
        }
    }
}

/// A null pointer read anywhere on a chain ends it as not found.
pub proof fn lemma_null_short_circuits(base: u64, offsets: Seq<u64>, values: Seq<u64>)
    requires
        values.len() > 0,
        values.last() == 0,
    ensures
        chase_next(base, offsets, values) == ChaseStep::NotFound,
{
}

impl GlobalAddresses {
    /// The chain to the game structure: the pointer kept at the game's global.
    pub fn game_chase(&self) -> (r: Chase)
        ensures
            r.wf(),
            r.spec_base() == self.game,
            r.spec_offsets() == seq![0u64],
            r.spec_values() == Seq::<u64>::empty(),
    {
        let mut offsets: Vec<u64> = Vec::new();
        offsets.push(0u64);
        assert(offsets@ =~= seq![0u64]);
        Chase::new(self.game, offsets)
    }

    /// The chain to the physical processor through its own global.
    pub fn processor_chase(&self) -> (r: Chase)
        ensures
            r.wf(),
            r.spec_base() == self.physical_processor,
            r.spec_offsets() == seq![0u64],
            r.spec_values() == Seq::<u64>::empty(),
    {
        let mut offsets: Vec<u64> = Vec::new();
        offsets.push(0u64);
        assert(offsets@ =~= seq![0u64]);
        Chase::new(self.physical_processor, offsets)
    }

    /// The chain to the physical processor that the game structure points to.
    pub fn game_processor_chase(&self) -> (r: Chase)
        ensures
            r.wf(),
            r.spec_base() == self.game,
            r.spec_offsets() == seq![0u64, field_table(Field::GamePhysicalProcessor).offset],
            r.spec_values() == Seq::<u64>::empty(),
    {
        let mut offsets: Vec<u64> = Vec::new();
        offsets.push(0u64);
        offsets.push(field_spec(Field::GamePhysicalProcessor).offset);
        assert(offsets@ =~= seq![0u64, field_table(Field::GamePhysicalProcessor).offset]);
        Chase::new(self.game, offsets)
    }
}

/// The handle that a finished chain yields: a structure of `kind` at the
/// pointer found, or `None` where the chain did not find one.
pub fn handle_from_step(step: ChaseStep, kind: StructKind) -> (r: Option<ForeignHandle>)
    ensures
        r is Some <==> (step matches ChaseStep::Found { pointer } && pointer != 0),
        r matches Some(h) ==> h.wf() && h.spec_kind() == kind
            && step == (ChaseStep::Found { pointer: h.spec_address() }),
{
    match step {
        ChaseStep::Found { pointer } => ForeignHandle::from_address(kind, pointer),
        _ => None,
    }
}

/// Whether the game structure exists: the chain from its global found it.
pub fn is_game_initialized(step: ChaseStep) -> (r: bool)
    ensures
        r == (step matches ChaseStep::Found { pointer } && pointer != 0),
{
    handle_from_step(step, StructKind::Game).is_some()
}

/// The game structure, or the reason it cannot be had.
pub fn get_game(step: ChaseStep) -> (r: Result<ForeignHandle, &'static str>)
    ensures
        r is Ok <==> (step matches ChaseStep::Found { pointer } && pointer != 0),
        r matches Ok(h) ==> h.wf() && h.spec_kind() == StructKind::Game
            && step == (ChaseStep::Found { pointer: h.spec_address() }),
        r matches Err(m) ==> m@ == "Game instance is not initialized"@,
{
    match handle_from_step(step, StructKind::Game) {
        Some(h) => Ok(h),
        None => Err("Game instance is not initialized"),
    }
}

/// Bit 1 of the game's flags: the game is running.
pub fn is_running(flags: u8) -> (r: bool)
    ensures
        r == (flags & 2u8 != 0u8),
{
    flags & 2u8 != 0u8
}

/// The little-endian 32-bit integer of the four bytes at `at`.
pub open spec fn le_u32(bytes: Seq<u8>, at: int) -> int {
    bytes[at] + 256 * bytes[at + 1] + 65536 * bytes[at + 2] + 16777216 * bytes[at + 3]
}

/// Reads the little-endian 32-bit integer at `at`; `None` where `bytes` ends first.
pub fn read_u32_le(bytes: &[u8], at: usize) -> (r: Option<u32>)
    ensures
        r is Some <==> at as int + 4 <= bytes@.len(),
        r matches Some(v) ==> v as int == le_u32(bytes@, at as int),
{
    if at > bytes.len() || bytes.len() - at < 4 {
        return None;
    }
    let v = bytes[at] as u32 + 256u32 * bytes[at + 1] as u32 + 65536u32 * bytes[at + 2] as u32
        + 16777216u32 * bytes[at + 3] as u32;
    Some(v)
}

/// The object list as read from the target: where its array lies, the
/// pointers in it, and its capacity.
pub struct ObjectList {
    pub objects: u64,
    pub entries: Vec<u64>,
    pub capacity: u32,
}

/// The non-null entries of `entries`, each with its index, in order.
pub open spec fn live_entries(entries: Seq<u64>) -> Seq<(usize, u64)>
    decreases entries.len(),
{
    if entries.len() == 0 {
        Seq::empty()
    } else {
        let rest = live_entries(entries.drop_last());
        if entries.last() != 0 {
            rest.push(((entries.len() - 1) as usize, entries.last()))
        } else {
            rest
        }
    }
}

/// The address of entry `index` of the array at `objects`; `None` for a null
/// array or an overflowing address.
pub fn entry_address(objects: u64, index: u32) -> (r: Option<u64>)
    ensures
        r is Some <==> objects != 0 && objects + 8 * index <= u64::MAX,
        r matches Some(a) ==> a == objects + 8 * index,
{
    let step = 8u64 * index as u64;
    if objects == 0 || step > u64::MAX - objects {
        None
    } else {
        Some(objects + step)
    }
}

impl ObjectList {
    /// Whether the list can be read: its array pointer is not null.
    pub fn is_usable(objects: u64) -> (r: bool)
        ensures
            r == (objects != 0),
    {
        objects != 0
    }

    /// The object at `index`; `None` past the end or for a null entry.
    pub fn get_object(&self, index: usize) -> (r: Option<u64>)
        ensures
            r is Some <==> index < self.entries@.len() && self.entries@[index as int] != 0,
            r matches Some(p) ==> p == self.entries@[index as int],
    {
        if index < self.entries.len() && self.entries[index] != 0 {
            Some(self.entries[index])
        } else {
            None
        }
    }

    /// Whether `obj` is a non-null pointer held in the list.
    pub fn is_valid_object(&self, obj: u64) -> (r: bool)
        ensures
            r == (obj != 0 && self.entries@.contains(obj)),
    {
        if obj == 0 {
            return false;
        }
        let mut i: usize = 0;
        while i < self.entries.len()
            invariant
                obj != 0,
                i <= self.entries@.len(),
                forall|j: int| 0 <= j < i ==> self.entries@[j] != obj,
            decreases self.entries@.len() - i,
        {
            if self.entries[i] == obj {
                assert(self.entries@[i as int] == obj);
                return true;
            }
            i = i + 1;
        }
        false
    }

    /// The non-null objects with their indices, in list order.
    pub fn live_objects(&self) -> (r: Vec<(usize, u64)>)
        ensures
            r@ == live_entries(self.entries@),
    {
        let mut out: Vec<(usize, u64)> = Vec::new();
        let mut i: usize = 0;
        while i < self.entries.len()
            invariant
                i <= self.entries@.len(),
                out@ == live_entries(self.entries@.take(i as int)),
            decreases self.entries@.len() - i,
        {
            let ghost before = self.entries@.take(i as int);
            assert(self.entries@.take(i as int + 1).drop_last() =~= before);
            if self.entries[i] != 0 {
                out.push((i, self.entries[i]));
            }
            i = i + 1;
        }
        assert(self.entries@.take(self.entries@.len() as int) =~= self.entries@);
        out
    }
}

/// How many objects the list holds.
pub fn get_object_count(list: &ObjectList) -> (r: u32)
    requires
        list.entries@.len() <= u32::MAX,
    ensures
        r == list.entries@.len(),
{
    list.entries.len() as u32
}

} // verus!
