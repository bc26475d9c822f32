//! The binary layout descriptor of one build of the target: where each
//! structure keeps the fields this library reads, which slot of its virtual
//! table each method occupies and with what signature, and the fixed global
//! addresses it starts from.

use vstd::prelude::*;

verus! {

/// The foreign structures the descriptor covers.
#[derive(Clone, Copy, Debug, PartialEq, Eq, Structural)]
pub enum StructKind {
    Game,
    PhysicalProcessor,
    /// Shares the physical processor's layout, with its own virtual table.
    FreeRaid,
    ResourceManager,
    Translocator,
    ObjectList,
}

/// How a field is read.
#[derive(Clone, Copy, Debug, PartialEq, Eq, Structural)]
pub enum FieldKind {
    Pointer,
    U8,
    U32,
    /// A fixed-size character array of this many bytes.
    Bytes(u32),
}

#[derive(Clone, Copy, Debug, PartialEq, Eq, Structural)]
pub enum Field {
    GameVtable,
    GameFlags,
    GameResources,
    GameMapName,
    GamePhysicalProcessor,
    ProcessorVtable,
    ProcessorTimerName,
    ProcessorLocale,
    ResourceVtable,
    ResourceGamePath,
    ResourceSteamPath,
    TranslocatorVtable,
    TranslocatorFlags,
    TranslocatorName,
    ObjectListObjects,
    ObjectListCount,
    ObjectListCapacity,
}

#[derive(Clone, Copy, Debug, PartialEq, Eq, Structural)]
pub struct FieldSpec {
    pub owner: StructKind,
    pub offset: u64,
    pub kind: FieldKind,
}

/// The explicit argument a virtual method takes after its receiver.
#[derive(Clone, Copy, Debug, PartialEq, Eq, Structural)]
pub enum ArgShape {
    NoArg,
    /// A NUL-terminated string.
    Text,
    U16,
    I32,
    /// The address of another foreign structure.
    Object,
}

/// What a virtual method returns.
#[derive(Clone, Copy, Debug, PartialEq, Eq, Structural)]
pub enum RetShape {
    Unit,
    Pointer,
    /// A pointer to a NUL-terminated string.
    Text,
    U16,
    Bool,
    Float32,
}

#[derive(Clone, Copy, Debug, PartialEq, Eq, Structural)]
pub enum Slot {
    GameInitialize,
    GameSetMapName,
    GameShutdown,
    GameTimeDelta,
    GameResourceManager,
    GameMapName,
    GameSetValue,
    GameGetValue,
    GameInitResources,
    GameCleanupResources,
    FreeRaidInitialize,
    FreeRaidSetGameMode,
    ProcessorUpdatePhysics,
    ProcessorProcessTranslocator,
    ProcessorFindTranslocator,
    ResourceGamePath,
    ResourceLoad,
    ResourceGetByName,
    TranslocatorActivate,
}

/// A virtual method: the structure whose table holds it, its index there and
/// its signature. Every method takes the structure's own address as its first
/// argument and uses the platform's native calling convention.
#[derive(Clone, Copy, Debug, PartialEq, Eq, Structural)]
pub struct SlotSpec {
    pub owner: StructKind,
    pub index: u32,
    pub arg: ArgShape,
    pub ret: RetShape,
}

#[derive(Clone, Copy, Debug, PartialEq, Eq, Structural)]
pub struct StructSpec {
    pub size: u64,
    pub align: u64,
    /// The structure whose layout is a prefix of this one.
    pub base: Option<StructKind>,
}

pub open spec fn field_table(f: Field) -> FieldSpec {
    match f {
        Field::GameVtable => FieldSpec { owner: StructKind::Game, offset: 0x0, kind: FieldKind::Pointer },
        Field::GameFlags => FieldSpec { owner: StructKind::Game, offset: 0x8, kind: FieldKind::U8 },
        Field::GameResources => FieldSpec { owner: StructKind::Game, offset: 0x10, kind: FieldKind::Pointer },
        Field::GameMapName => FieldSpec { owner: StructKind::Game, offset: 0x18, kind: FieldKind::Bytes(16) },
        Field::GamePhysicalProcessor => FieldSpec { owner: StructKind::Game, offset: 0x120, kind: FieldKind::Pointer },
        Field::ProcessorVtable => FieldSpec { owner: StructKind::PhysicalProcessor, offset: 0x0, kind: FieldKind::Pointer },
        Field::ProcessorTimerName => FieldSpec { owner: StructKind::PhysicalProcessor, offset: 0x70, kind: FieldKind::Pointer },
        Field::ProcessorLocale => FieldSpec { owner: StructKind::PhysicalProcessor, offset: 0x1f0, kind: FieldKind::Bytes(8) },
        Field::ResourceVtable => FieldSpec { owner: StructKind::ResourceManager, offset: 0x0, kind: FieldKind::Pointer },
        Field::ResourceGamePath => FieldSpec { owner: StructKind::ResourceManager, offset: 0x50, kind: FieldKind::Pointer },
        Field::ResourceSteamPath => FieldSpec { owner: StructKind::ResourceManager, offset: 0xc0, kind: FieldKind::Bytes(64) },
        Field::TranslocatorVtable => FieldSpec { owner: StructKind::Translocator, offset: 0x0, kind: FieldKind::Pointer },
        Field::TranslocatorFlags => FieldSpec { owner: StructKind::Translocator, offset: 0x8, kind: FieldKind::U32 },
        Field::TranslocatorName => FieldSpec { owner: StructKind::Translocator, offset: 0x10, kind: FieldKind::Pointer },
        Field::ObjectListObjects => FieldSpec { owner: StructKind::ObjectList, offset: 0x0, kind: FieldKind::Pointer },
        Field::ObjectListCount => FieldSpec { owner: StructKind::ObjectList, offset: 0x8, kind: FieldKind::U32 },
        Field::ObjectListCapacity => FieldSpec { owner: StructKind::ObjectList, offset: 0xc, kind: FieldKind::U32 },
    }
}

pub open spec fn slot_table(s: Slot) -> SlotSpec {
    match s {
        Slot::GameInitialize => SlotSpec { owner: StructKind::Game, index: 1, arg: ArgShape::Text, ret: RetShape::Unit },
        Slot::GameSetMapName => SlotSpec { owner: StructKind::Game, index: 2, arg: ArgShape::Text, ret: RetShape::Unit },
        Slot::GameShutdown => SlotSpec { owner: StructKind::Game, index: 3, arg: ArgShape::NoArg, ret: RetShape::Unit },
        Slot::GameTimeDelta => SlotSpec { owner: StructKind::Game, index: 4, arg: ArgShape::NoArg, ret: RetShape::Float32 },
        Slot::GameResourceManager => SlotSpec { owner: StructKind::Game, index: 5, arg: ArgShape::NoArg, ret: RetShape::Pointer },
        Slot::GameMapName => SlotSpec { owner: StructKind::Game, index: 6, arg: ArgShape::NoArg, ret: RetShape::Text },
        Slot::GameSetValue => SlotSpec { owner: StructKind::Game, index: 7, arg: ArgShape::U16, ret: RetShape::Unit },
        Slot::GameGetValue => SlotSpec { owner: StructKind::Game, index: 8, arg: ArgShape::NoArg, ret: RetShape::U16 },
        Slot::GameInitResources => SlotSpec { owner: StructKind::Game, index: 9, arg: ArgShape::NoArg, ret: RetShape::Bool },
        Slot::GameCleanupResources => SlotSpec { owner: StructKind::Game, index: 10, arg: ArgShape::NoArg, ret: RetShape::Unit },
        Slot::FreeRaidInitialize => SlotSpec { owner: StructKind::FreeRaid, index: 3, arg: ArgShape::NoArg, ret: RetShape::Unit },
        Slot::FreeRaidSetGameMode => SlotSpec { owner: StructKind::FreeRaid, index: 4, arg: ArgShape::I32, ret: RetShape::Unit },
        Slot::ProcessorUpdatePhysics => SlotSpec { owner: StructKind::PhysicalProcessor, index: 6, arg: ArgShape::NoArg, ret: RetShape::Unit },
        Slot::ProcessorProcessTranslocator => SlotSpec { owner: StructKind::PhysicalProcessor, index: 8, arg: ArgShape::Object, ret: RetShape::Pointer },
        Slot::ProcessorFindTranslocator => SlotSpec { owner: StructKind::PhysicalProcessor, index: 9, arg: ArgShape::Text, ret: RetShape::Pointer },
        Slot::ResourceGamePath => SlotSpec { owner: StructKind::ResourceManager, index: 2, arg: ArgShape::NoArg, ret: RetShape::Text },
        Slot::ResourceLoad => SlotSpec { owner: StructKind::ResourceManager, index: 3, arg: ArgShape::Text, ret: RetShape::Pointer },
        Slot::ResourceGetByName => SlotSpec { owner: StructKind::ResourceManager, index: 4, arg: ArgShape::Text, ret: RetShape::Pointer },
        Slot::TranslocatorActivate => SlotSpec { owner: StructKind::Translocator, index: 5, arg: ArgShape::I32, ret: RetShape::Pointer },
    }
}

pub open spec fn struct_table(k: StructKind) -> StructSpec {
    match k {
        StructKind::Game => StructSpec { size: 0x130, align: 8, base: None },
        StructKind::PhysicalProcessor => StructSpec { size: 0x1f8, align: 8, base: None },
        StructKind::FreeRaid => StructSpec { size: 0x1f8, align: 8, base: Some(StructKind::PhysicalProcessor) },
        StructKind::ResourceManager => StructSpec { size: 0x100, align: 8, base: None },
        StructKind::Translocator => StructSpec { size: 0x48, align: 8, base: None },
        StructKind::ObjectList => StructSpec { size: 0x10, align: 8, base: None },
    }
}

/// Where `field` lies and how it is read.
pub fn field_spec(field: Field) -> (r: FieldSpec)
    ensures
        r == field_table(field),
{
    match field {
        Field::GameVtable => FieldSpec { owner: StructKind::Game, offset: 0x0, kind: FieldKind::Pointer },
        Field::GameFlags => FieldSpec { owner: StructKind::Game, offset: 0x8, kind: FieldKind::U8 },
        Field::GameResources => FieldSpec { owner: StructKind::Game, offset: 0x10, kind: FieldKind::Pointer },
        Field::GameMapName => FieldSpec { owner: StructKind::Game, offset: 0x18, kind: FieldKind::Bytes(16) },
        Field::GamePhysicalProcessor => FieldSpec { owner: StructKind::Game, offset: 0x120, kind: FieldKind::Pointer },
        Field::ProcessorVtable => FieldSpec { owner: StructKind::PhysicalProcessor, offset: 0x0, kind: FieldKind::Pointer },
        Field::ProcessorTimerName => FieldSpec { owner: StructKind::PhysicalProcessor, offset: 0x70, kind: FieldKind::Pointer },
        Field::ProcessorLocale => FieldSpec { owner: StructKind::PhysicalProcessor, offset: 0x1f0, kind: FieldKind::Bytes(8) },
        Field::ResourceVtable => FieldSpec { owner: StructKind::ResourceManager, offset: 0x0, kind: FieldKind::Pointer },
        Field::ResourceGamePath => FieldSpec { owner: StructKind::ResourceManager, offset: 0x50, kind: FieldKind::Pointer },
        Field::ResourceSteamPath => FieldSpec { owner: StructKind::ResourceManager, offset: 0xc0, kind: FieldKind::Bytes(64) },
        Field::TranslocatorVtable => FieldSpec { owner: StructKind::Translocator, offset: 0x0, kind: FieldKind::Pointer },
        Field::TranslocatorFlags => FieldSpec { owner: StructKind::Translocator, offset: 0x8, kind: FieldKind::U32 },
        Field::TranslocatorName => FieldSpec { owner: StructKind::Translocator, offset: 0x10, kind: FieldKind::Pointer },
        Field::ObjectListObjects => FieldSpec { owner: StructKind::ObjectList, offset: 0x0, kind: FieldKind::Pointer },
        Field::ObjectListCount => FieldSpec { owner: StructKind::ObjectList, offset: 0x8, kind: FieldKind::U32 },
        Field::ObjectListCapacity => FieldSpec { owner: StructKind::ObjectList, offset: 0xc, kind: FieldKind::U32 },
    }
}

/// Which table slot `slot` occupies, and its signature.
pub fn slot_spec(slot: Slot) -> (r: SlotSpec)
    ensures
        r == slot_table(slot),
{
    match slot {
        Slot::GameInitialize => SlotSpec { owner: StructKind::Game, index: 1, arg: ArgShape::Text, ret: RetShape::Unit },
        Slot::GameSetMapName => SlotSpec { owner: StructKind::Game, index: 2, arg: ArgShape::Text, ret: RetShape::Unit },
        Slot::GameShutdown => SlotSpec { owner: StructKind::Game, index: 3, arg: ArgShape::NoArg, ret: RetShape::Unit },
        Slot::GameTimeDelta => SlotSpec { owner: StructKind::Game, index: 4, arg: ArgShape::NoArg, ret: RetShape::Float32 },
        Slot::GameResourceManager => SlotSpec { owner: StructKind::Game, index: 5, arg: ArgShape::NoArg, ret: RetShape::Pointer },
        Slot::GameMapName => SlotSpec { owner: StructKind::Game, index: 6, arg: ArgShape::NoArg, ret: RetShape::Text },
        Slot::GameSetValue => SlotSpec { owner: StructKind::Game, index: 7, arg: ArgShape::U16, ret: RetShape::Unit },
        Slot::GameGetValue => SlotSpec { owner: StructKind::Game, index: 8, arg: ArgShape::NoArg, ret: RetShape::U16 },
        Slot::GameInitResources => SlotSpec { owner: StructKind::Game, index: 9, arg: ArgShape::NoArg, ret: RetShape::Bool },
        Slot::GameCleanupResources => SlotSpec { owner: StructKind::Game, index: 10, arg: ArgShape::NoArg, ret: RetShape::Unit },
        Slot::FreeRaidInitialize => SlotSpec { owner: StructKind::FreeRaid, index: 3, arg: ArgShape::NoArg, ret: RetShape::Unit },
        Slot::FreeRaidSetGameMode => SlotSpec { owner: StructKind::FreeRaid, index: 4, arg: ArgShape::I32, ret: RetShape::Unit },
        Slot::ProcessorUpdatePhysics => SlotSpec { owner: StructKind::PhysicalProcessor, index: 6, arg: ArgShape::NoArg, ret: RetShape::Unit },
        Slot::ProcessorProcessTranslocator => SlotSpec { owner: StructKind::PhysicalProcessor, index: 8, arg: ArgShape::Object, ret: RetShape::Pointer },
        Slot::ProcessorFindTranslocator => SlotSpec { owner: StructKind::PhysicalProcessor, index: 9, arg: ArgShape::Text, ret: RetShape::Pointer },
        Slot::ResourceGamePath => SlotSpec { owner: StructKind::ResourceManager, index: 2, arg: ArgShape::NoArg, ret: RetShape::Text },
        Slot::ResourceLoad => SlotSpec { owner: StructKind::ResourceManager, index: 3, arg: ArgShape::Text, ret: RetShape::Pointer },
        Slot::ResourceGetByName => SlotSpec { owner: StructKind::ResourceManager, index: 4, arg: ArgShape::Text, ret: RetShape::Pointer },
        Slot::TranslocatorActivate => SlotSpec { owner: StructKind::Translocator, index: 5, arg: ArgShape::I32, ret: RetShape::Pointer },
    }
}

/// The size, alignment and base of structure `kind`.
pub fn struct_spec(kind: StructKind) -> (r: StructSpec)
    ensures
        r == struct_table(kind),
{
    match kind {
        StructKind::Game => StructSpec { size: 0x130, align: 8, base: None },
        StructKind::PhysicalProcessor => StructSpec { size: 0x1f8, align: 8, base: None },
        StructKind::FreeRaid => StructSpec { size: 0x1f8, align: 8, base: Some(StructKind::PhysicalProcessor) },
        StructKind::ResourceManager => StructSpec { size: 0x100, align: 8, base: None },
        StructKind::Translocator => StructSpec { size: 0x48, align: 8, base: None },
        StructKind::ObjectList => StructSpec { size: 0x10, align: 8, base: None },
    }
}

/// The fixed addresses of one build of the target, where its global
/// structures (or pointers to them) live.
#[derive(Clone, Copy, Debug, PartialEq, Eq, Structural)]
pub struct GlobalAddresses {
    /// Holds a pointer to the game structure.
    pub game: u64,
    /// Holds a pointer to the physical processor.
    pub physical_processor: u64,
    /// The object list structure itself.
    pub object_list: u64,
    /// Holds the number of objects in the list.
    pub object_count: u64,
}

impl GlobalAddresses {
    /// The addresses of the Definitive Edition build.
    pub fn definitive_edition() -> (r: GlobalAddresses)
        ensures
            r == (GlobalAddresses {
                game: 0x141CAF778,
                physical_processor: 0x141CA1F68,
                object_list: 0x141CADDC0,
                object_count: 0x141CADDAC,
            }),
    {
        GlobalAddresses {
            game: 0x141CAF778,
            physical_processor: 0x141CA1F68,
            object_list: 0x141CADDC0,
            object_count: 0x141CADDAC,
        }
    }
}

} // verus!
