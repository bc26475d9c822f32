//! An in-memory target process. It implements the remote memory channel and
//! the symbol resolver on plain data, keeps a history of every operation
//! performed on it, and runs the injection machine end to end, so that the
//! rollback discipline can be checked without a real target.

use vstd::prelude::*;
use crate::remote::{Protection, RemoteAllocation, AllocError, WriteError, ResolveError,
    InjectionError, InjectionResult};
use crate::injector::{ModulePath, Injection, Action, Event, Stage, InjectionView, measure, action_of,
    lemma_answer_progress};

verus! {

/// Where the loopback process places its first allocation.
pub const LOOPBACK_BASE: u64 = 0x10000;

/// One operation that changed the loopback process.
#[derive(Clone, Copy, Debug, PartialEq, Eq, Structural)]
pub enum Op {
    Allocated(u64),
    /// A write was attempted at this address.
    Wrote(u64),
    Freed(u64),
    Spawned { handle: u64, start: u64, argument: u64 },
    ThreadClosed(u64),
    Terminated,
}

pub struct Region {
    pub address: u64,
    pub data: Vec<u8>,
    pub protection: Protection,
}

pub ghost struct RegionView {
    pub address: u64,
    pub data: Seq<u8>,
    pub protection: Protection,
}

impl Region {
    pub open spec fn view(&self) -> RegionView {
        RegionView { address: self.address, data: self.data@, protection: self.protection }
    }
}

/// A symbol that a module of the loopback process exports.
pub struct Export {
    pub module: String,
    pub symbol: String,
    pub address: u64,
}

pub ghost struct ExportView {
    pub module: Seq<char>,
    pub symbol: Seq<char>,
    pub address: u64,
}

impl Export {
    pub open spec fn view(&self) -> ExportView {
        ExportView { module: self.module@, symbol: self.symbol@, address: self.address }
    }
}

pub ghost struct LoopbackView {
    pub regions: Seq<RegionView>,
    pub next_address: u64,
    pub max_allocation: usize,
    pub deny_writes: bool,
    pub exports: Seq<ExportView>,
    pub thread_exit: Option<u32>,
    pub threads: Seq<u64>,
    pub next_handle: u64,
    pub history: Seq<Op>,
}

pub struct LoopbackProcess {
    regions: Vec<Region>,
    next_address: u64,
    max_allocation: usize,
    deny_writes: bool,
    exports: Vec<Export>,
    thread_exit: Option<u32>,
    threads: Vec<u64>,
    next_handle: u64,
    history: Vec<Op>,
}

/// The index of the first region at `address`, from `start` on; -1 where none is.
pub open spec fn find_region(rs: Seq<RegionView>, address: u64, start: int) -> int
    decreases rs.len() - start,
{
    if start < 0 || start >= rs.len() {
        -1
    } else if rs[start].address == address {
        start
    } else {
        find_region(rs, address, start + 1)
    }
}

/// Region addresses rise strictly and stay below the next address to hand out.
pub open spec fn regions_wf(rs: Seq<RegionView>, next_address: u64) -> bool {
    &&& forall|i: int, j: int| 0 <= i < j < rs.len() ==> rs[i].address < rs[j].address
    &&& forall|i: int| 0 <= i < rs.len() ==> rs[i].address < next_address
}

pub open spec fn loopback_wf(v: LoopbackView) -> bool {
    &&& regions_wf(v.regions, v.next_address)
    &&& forall|i: int| 0 <= i < v.threads.len() ==> v.threads[i] < v.next_handle
}

/// Whether the process grants an allocation of `size` bytes.
pub open spec fn grants(v: LoopbackView, size: usize) -> bool {
    0 < size && size <= v.max_allocation && v.next_address as int + size as int <= u64::MAX as int
}

pub open spec fn allocation_result(v: LoopbackView, size: usize, protection: Protection) -> Result<RemoteAllocation, AllocError> {
    if grants(v, size) {
        Ok(RemoteAllocation { address: v.next_address, size, protection })
    } else {
        Err(AllocError::OutOfMemory)
    }
}

pub open spec fn after_allocation(v: LoopbackView, size: usize, protection: Protection) -> LoopbackView {
    if grants(v, size) {
        LoopbackView {
            regions: v.regions.push(RegionView {
                address: v.next_address,
                data: Seq::new(size as nat, |i: int| 0u8),
                protection,
            }),
            next_address: (v.next_address + size) as u64,
            history: v.history.push(Op::Allocated(v.next_address)),
            ..v
        }
    } else {
        v
    }
}

pub open spec fn write_result(v: LoopbackView, address: u64, bytes: Seq<u8>) -> Result<usize, WriteError> {
    let i = find_region(v.regions, address, 0);
    if v.deny_writes || i < 0 || v.regions[i].protection != Protection::ReadWrite {
        Err(WriteError::AccessDenied)
    } else if bytes.len() > v.regions[i].data.len() {
        Err(WriteError::ShortWrite)
    } else {
        Ok(bytes.len() as usize)
    }
}

pub open spec fn after_write(v: LoopbackView, address: u64, bytes: Seq<u8>) -> LoopbackView {
    let i = find_region(v.regions, address, 0);
    let logged = LoopbackView { history: v.history.push(Op::Wrote(address)), ..v };
    if write_result(v, address, bytes) is Ok {
        LoopbackView {
            regions: v.regions.update(i, RegionView {
                data: bytes + v.regions[i].data.subrange(bytes.len() as int, v.regions[i].data.len() as int),
                ..v.regions[i]
            }),
            ..logged
        }
    } else {
        logged
    }
}

pub open spec fn read_result(v: LoopbackView, address: u64, len: usize) -> Option<Seq<u8>> {
    let i = find_region(v.regions, address, 0);
    if i < 0 || len > v.regions[i].data.len() {
        None
    } else {
        Some(v.regions[i].data.subrange(0, len as int))
    }
}

pub open spec fn after_free(v: LoopbackView, address: u64) -> LoopbackView {
    let i = find_region(v.regions, address, 0);
    if i < 0 {
        v
    } else {
        LoopbackView {
            regions: v.regions.remove(i),
            history: v.history.push(Op::Freed(address)),
            ..v
        }
    }
}

/// The index of the first export of `symbol` from `module`, from `start` on; -1 where none is.
pub open spec fn find_export(ex: Seq<ExportView>, module: Seq<char>, symbol: Seq<char>, start: int) -> int
    decreases ex.len() - start,
{
    if start < 0 || start >= ex.len() {
        -1
    } else if ex[start].module == module && ex[start].symbol == symbol {
        start
    } else {
        find_export(ex, module, symbol, start + 1)
    }
}

pub open spec fn has_module(ex: Seq<ExportView>, module: Seq<char>) -> bool {
    exists|i: int| 0 <= i < ex.len() && ex[i].module == module
}

pub open spec fn resolve_result(ex: Seq<ExportView>, module: Seq<char>, symbol: Seq<char>) -> Result<u64, ResolveError> {
    let i = find_export(ex, module, symbol, 0);
    if i >= 0 {
        Ok(ex[i].address)
    } else if has_module(ex, module) {
        Err(ResolveError::SymbolNotFound)
    } else {
        Err(ResolveError::ModuleNotFound)
    }
}

/// The loader entry point that the injection resolves.
pub open spec fn loader_of(v: LoopbackView) -> Result<u64, ResolveError> {
    resolve_result(v.exports, "kernel32.dll"@, "LoadLibraryA"@)
}

proof fn lemma_find_region_bounds(rs: Seq<RegionView>, address: u64, start: int)
    requires
        0 <= start,
    ensures
        -1 <= find_region(rs, address, start) < rs.len(),
        find_region(rs, address, start) >= 0 ==> find_region(rs, address, start) >= start
            && rs[find_region(rs, address, start)].address == address,
        find_region(rs, address, start) < 0 ==> forall|k: int| start <= k < rs.len() ==> rs[k].address != address,
    decreases rs.len() - start,
{
    if start < rs.len() && rs[start].address != address {
        lemma_find_region_bounds(rs, address, start + 1);
    }
}

proof fn lemma_find_region_unique(rs: Seq<RegionView>, next_address: u64, k: int)
    requires
        regions_wf(rs, next_address),
        0 <= k < rs.len(),
    ensures
        find_region(rs, rs[k].address, 0) == k,
{
    assert forall|s: int| 0 <= s <= k implies find_region(rs, rs[k].address, s) == k by {
        lemma_find_region_from(rs, rs[k].address, s, k);
    }
}

proof fn lemma_find_region_from(rs: Seq<RegionView>, address: u64, s: int, k: int)
    requires
        0 <= s <= k < rs.len(),
        rs[k].address == address,
        forall|j: int| s <= j < k ==> rs[j].address != address,
    ensures
        find_region(rs, address, s) == k,
    decreases k - s,
{
    if s < k {
        lemma_find_region_from(rs, address, s + 1, k);
    }
}

proof fn lemma_find_region_absent(rs: Seq<RegionView>, address: u64, s: int)
    requires
        0 <= s,
        forall|j: int| s <= j < rs.len() ==> rs[j].address != address,
    ensures
        find_region(rs, address, s) == -1,
    decreases rs.len() - s,
{
    if s < rs.len() {
        lemma_find_region_absent(rs, address, s + 1);
    }
}

/// `a` is a live allocation of the process, with its size and protection.
pub open spec fn holds_allocation(v: LoopbackView, a: RemoteAllocation) -> bool {
    exists|k: int| 0 <= k < v.regions.len()
        && v.regions[k].address == a.address
        && v.regions[k].data.len() == a.size
        && v.regions[k].protection == a.protection
}

/// Writing a buffer no longer than a writable allocation into it and reading
/// the same number of bytes back gives the buffer unchanged.
pub proof fn lemma_write_read_round_trip(v: LoopbackView, a: RemoteAllocation, bytes: Seq<u8>)
    requires
        loopback_wf(v),
        !v.deny_writes,
        holds_allocation(v, a),
        a.protection == Protection::ReadWrite,
        bytes.len() <= a.size,
    ensures
        write_result(v, a.address, bytes) == Ok::<usize, WriteError>(bytes.len() as usize),
        read_result(after_write(v, a.address, bytes), a.address, bytes.len() as usize) == Some(bytes),
{
    let k = choose|k: int| 0 <= k < v.regions.len()
        && v.regions[k].address == a.address
        && v.regions[k].data.len() == a.size
        && v.regions[k].protection == a.protection;
    lemma_find_region_unique(v.regions, v.next_address, k);
    let w = after_write(v, a.address, bytes);
    assert(w.regions.len() == v.regions.len());
    assert forall|j: int| 0 <= j < k implies w.regions[j].address != a.address by {
        assert(w.regions[j] == v.regions[j]);
        assert(v.regions[j].address < v.regions[k].address);
    }
    lemma_find_region_from(w.regions, a.address, 0, k);
    assert(w.regions[k].data.subrange(0, bytes.len() as int) =~= bytes);
}

/// Freeing an allocation a second time changes nothing: no region goes and no
/// release is recorded.
pub proof fn lemma_free_idempotent(v: LoopbackView, address: u64)
    requires
        loopback_wf(v),
    ensures
        find_region(after_free(v, address).regions, address, 0) < 0,
        after_free(after_free(v, address), address) == after_free(v, address),
{
    let i = find_region(v.regions, address, 0);
    lemma_find_region_bounds(v.regions, address, 0);
    let w = after_free(v, address);
    if i >= 0 {
        assert forall|j: int| 0 <= j < w.regions.len() implies w.regions[j].address != address by {
            if j < i {
                assert(v.regions[j].address < v.regions[i].address);
            } else {
                assert(w.regions[j] == v.regions[j + 1]);
                assert(v.regions[i].address < v.regions[j + 1].address);
            }
        }
        lemma_find_region_absent(w.regions, address, 0);
    }
}



/// The operations that the rollback of `m` still owes, in the order it does them.
pub open spec fn owed_ops(m: InjectionView) -> Seq<Op> {
    (if m.allocation is Some { seq![Op::Freed(m.allocation->0)] } else { Seq::empty() })
    + (if m.thread is Some { seq![Op::ThreadClosed(m.thread->0)] } else { Seq::empty() })
    + (if m.terminate_pending { seq![Op::Terminated] } else { Seq::empty() })
}

/// What one injection of a path of `len` bytes (its NUL included) does to the
/// loopback process `v`: the operations it performs, in order, and its result.
pub open spec fn expected_injection(v: LoopbackView, len: nat) -> (Seq<Op>, InjectionResult) {
    let a = v.next_address;
    let h = v.next_handle;
    if !grants(v, len as usize) {
        (seq![Op::Terminated], Err(InjectionError::AllocationFailed))
    } else if v.deny_writes {
        (seq![Op::Allocated(a), Op::Wrote(a), Op::Freed(a), Op::Terminated], Err(InjectionError::WriteFailed))
    } else if loader_of(v) is Err {
        (seq![Op::Allocated(a), Op::Wrote(a), Op::Freed(a), Op::Terminated],
            Err(InjectionError::SymbolResolutionFailed))
    } else if h == u64::MAX {
        (seq![Op::Allocated(a), Op::Wrote(a), Op::Freed(a), Op::Terminated],
            Err(InjectionError::RemoteThreadFailed))
    } else {
        let trace = seq![
            Op::Allocated(a),
            Op::Wrote(a),
            Op::Spawned { handle: h, start: loader_of(v)->Ok_0, argument: a },
            Op::Freed(a),
            Op::ThreadClosed(h),
        ];
        match v.thread_exit {
            None => (trace, Err(InjectionError::Timeout)),
            Some(c) => if c == 0 {
                (trace, Err(InjectionError::LoadReportedFailure))
            } else {
                (trace, Ok(c))
            },
        }
    }
}

/// Where the target refuses the allocation, the injection neither writes nor
/// creates a thread: its only operation is one termination of the target.
pub proof fn lemma_allocation_failure_short_circuits(v: LoopbackView, len: nat)
    requires
        !grants(v, len as usize),
    ensures
        expected_injection(v, len).0 == seq![Op::Terminated],
        expected_injection(v, len).1 == Err::<u32, InjectionError>(InjectionError::AllocationFailed),
{
}

/// Where the remote thread never finishes, the injection reports a timeout,
/// does not terminate the target, and still frees its allocation and closes
/// the thread's handle.
pub proof fn lemma_timeout_releases_everything(v: LoopbackView, len: nat)
    requires
        grants(v, len as usize),
        !v.deny_writes,
        loader_of(v) is Ok,
        v.next_handle < u64::MAX,
        v.thread_exit is None,
    ensures
        expected_injection(v, len).1 == Err::<u32, InjectionError>(InjectionError::Timeout),
        expected_injection(v, len).0.contains(Op::Freed(v.next_address)),
        expected_injection(v, len).0.contains(Op::ThreadClosed(v.next_handle)),
        !expected_injection(v, len).0.contains(Op::Terminated),
{
    let t = expected_injection(v, len).0;
    assert(t[3] == Op::Freed(v.next_address));
    assert(t[4] == Op::ThreadClosed(v.next_handle));
}

/// How far a run of the injection machine `m` on the loopback process `p`,
/// started from `init`, has come.
spec fn run_consistent(m: InjectionView, p: LoopbackView, init: LoopbackView, buffer: Seq<u8>) -> bool {
    let len = buffer.len();
    let a = init.next_address;
    let h = init.next_handle;
    let e = expected_injection(init, len);
    let hist = init.history;
    let written = RegionView { address: a, data: buffer, protection: Protection::ReadWrite };
    let config_kept = p.max_allocation == init.max_allocation && p.deny_writes == init.deny_writes
        && p.exports == init.exports && p.thread_exit == init.thread_exit;
    config_kept && match m.stage {
        Stage::Allocating => p == init,
        Stage::Writing =>
            grants(init, len as usize) && m.allocation == Some(a)
            && p.regions == init.regions.push(RegionView {
                address: a,
                data: Seq::new(len, |i: int| 0u8),
                protection: Protection::ReadWrite,
            })
            && p.history == hist.push(Op::Allocated(a))
            && p.threads == init.threads && p.next_handle == h && p.next_address == a + len,
        Stage::Resolving | Stage::Spawning =>
            grants(init, len as usize) && !init.deny_writes && m.allocation == Some(a)
            && p.regions == init.regions.push(written)
            && p.history == hist.push(Op::Allocated(a)).push(Op::Wrote(a))
            && p.threads == init.threads && p.next_handle == h && p.next_address == a + len
            && (m.stage == Stage::Spawning ==> loader_of(init) == Ok::<u64, ResolveError>(m.loader)),
        Stage::Waiting | Stage::QueryingExit =>
            grants(init, len as usize) && !init.deny_writes && m.allocation == Some(a)
            && loader_of(init) == Ok::<u64, ResolveError>(m.loader) && h < u64::MAX
            && m.thread == Some(h)
            && p.regions == init.regions.push(written)
            && p.history == hist.push(Op::Allocated(a)).push(Op::Wrote(a)).push(
                Op::Spawned { handle: h, start: m.loader, argument: a })
            && p.threads == init.threads.push(h) && p.next_handle == h + 1 && p.next_address == a + len
            && (m.stage == Stage::QueryingExit ==> init.thread_exit is Some),
        Stage::Cleanup =>
            m.outcome == Some(e.1)
            && hist + e.0 == p.history + owed_ops(m)
            && (m.allocation is Some ==> m.allocation == Some(a) && p.regions.len() == init.regions.len() + 1
                && p.regions.subrange(0, init.regions.len() as int) == init.regions
                && p.regions[init.regions.len() as int].address == a)
            && (m.allocation is None ==> p.regions == init.regions)
            && (m.thread is Some ==> m.thread == Some(h) && p.threads == init.threads.push(h))
            && (m.thread is None ==> p.threads == init.threads)
            && p.next_handle >= h && p.next_address >= a
            && (m.thread is Some ==> p.next_handle == h + 1),
    }
}

fn zeroed(size: usize) -> (r: Vec<u8>)
    ensures
        r@ == Seq::new(size as nat, |i: int| 0u8),
{
    let mut v: Vec<u8> = Vec::new();
    let mut i: usize = 0;
    while i < size
        invariant
            i <= size,
            v@ =~= Seq::new(i as nat, |k: int| 0u8),
        decreases size - i,
    {
        v.push(0u8);
        i = i + 1;
    }
    v
}

impl LoopbackProcess {
    pub closed spec fn view(&self) -> LoopbackView {
        LoopbackView {
            regions: self.regions@.map_values(|r: Region| r.view()),
            next_address: self.next_address,
            max_allocation: self.max_allocation,
            deny_writes: self.deny_writes,
            exports: self.exports@.map_values(|e: Export| e.view()),
            thread_exit: self.thread_exit,
            threads: self.threads@,
            next_handle: self.next_handle,
            history: self.history@,
        }
    }

    pub open spec fn wf(&self) -> bool {
        loopback_wf(self.view())
    }

    /// A process that grants allocations of up to `max_allocation` bytes and
    /// whose remote threads finish with `thread_exit` (`None`: they never finish).
    pub fn new(max_allocation: usize, thread_exit: Option<u32>) -> (r: LoopbackProcess)
        ensures
            r.wf(),
            r.view() == (LoopbackView {
                regions: Seq::empty(),
                next_address: LOOPBACK_BASE,
                max_allocation,
                deny_writes: false,
                exports: Seq::empty(),
                thread_exit,
                threads: Seq::empty(),
                next_handle: 1,
                history: Seq::empty(),
            }),
    {
        let r = LoopbackProcess {
            regions: Vec::new(),
            next_address: LOOPBACK_BASE,
            max_allocation,
            deny_writes: false,
            exports: Vec::new(),
            thread_exit,
            threads: Vec::new(),
            next_handle: 1,
            history: Vec::new(),
        };
        assert(r.view().regions =~= Seq::<RegionView>::empty());
        assert(r.view().exports =~= Seq::<ExportView>::empty());
        r
    }

    /// Makes `symbol` of `module` resolve to `address`.
    pub fn add_export(&mut self, module: &str, symbol: &str, address: u64)
        ensures
            final(self).view() == (LoopbackView {
                exports: old(self).view().exports.push(ExportView { module: module@, symbol: symbol@, address }),
                ..old(self).view()
            }),
    {
        let e = Export { module: String::from_str(module), symbol: String::from_str(symbol), address };
        self.exports.push(e);
        assert(self.view().exports =~= old(self).view().exports.push(e.view()));
    }

    /// Makes every later write fail as the target refusing access.
    pub fn set_deny_writes(&mut self, deny: bool)
        ensures
            final(self).view() == (LoopbackView { deny_writes: deny, ..old(self).view() }),
    {
        self.deny_writes = deny;
    }

    fn region_index(&self, address: u64) -> (r: Option<usize>)
        ensures
            r matches Some(i) ==> i as int == find_region(self.view().regions, address, 0)
                && i < self.regions@.len(),
            r is None ==> find_region(self.view().regions, address, 0) == -1,
    {
        let ghost rs = self.view().regions;
        let mut i: usize = 0;
        while i < self.regions.len()
            invariant
                i <= self.regions@.len(),
                rs == self.view().regions,
                find_region(rs, address, 0) == find_region(rs, address, i as int),
            decreases self.regions@.len() - i,
        {
            assert(rs[i as int] == self.regions@[i as int].view());
            if self.regions[i].address == address {
                return Some(i);
            }
            i = i + 1;
        }
        None
    }

    /// Reserves `size` bytes; refused as out of memory where the process does
    /// not grant them.
    pub fn allocate(&mut self, size: usize, protection: Protection) -> (r: Result<RemoteAllocation, AllocError>)
        requires
            old(self).wf(),
        ensures
            final(self).wf(),
            r == allocation_result(old(self).view(), size, protection),
            final(self).view() == after_allocation(old(self).view(), size, protection),
    {
        if size == 0 || size > self.max_allocation || size as u64 > u64::MAX - self.next_address {
            return Err(AllocError::OutOfMemory);
        }
        let address = self.next_address;
        let region = Region { address, data: zeroed(size), protection };
        self.regions.push(region);
        self.history.push(Op::Allocated(address));
        self.next_address = address + size as u64;
        assert(self.view().regions =~= old(self).view().regions.push(region.view()));
        Ok(RemoteAllocation { address, size, protection })
    }

    /// Copies `bytes` to the start of the allocation at `address`.
    pub fn write(&mut self, address: u64, bytes: &[u8]) -> (r: Result<usize, WriteError>)
        requires
            old(self).wf(),
        ensures
            final(self).wf(),
            r == write_result(old(self).view(), address, bytes@),
            final(self).view() == after_write(old(self).view(), address, bytes@),
    {
        self.history.push(Op::Wrote(address));
        let ghost logged = self.view();
        let i = match self.region_index(address) {
            None => return Err(WriteError::AccessDenied),
            Some(i) => i,
        };
        if self.deny_writes || self.regions[i].protection != Protection::ReadWrite {
            return Err(WriteError::AccessDenied);
        }
        let n = self.regions[i].data.len();
        if bytes.len() > n {
            return Err(WriteError::ShortWrite);
        }
        let mut data: Vec<u8> = Vec::new();
        let mut k: usize = 0;
        while k < n
            invariant
                k <= n,
                n == self.regions@[i as int].data@.len(),
                i < self.regions@.len(),
                bytes@.len() <= n,
                data@ =~= (bytes@ + self.regions@[i as int].data@.subrange(bytes@.len() as int, n as int)).subrange(0, k as int),
            decreases n - k,
        {
            if k < bytes.len() {
                data.push(bytes[k]);
            } else {
                data.push(self.regions[i].data[k]);
            }
            k = k + 1;
        }
        assert(data@ =~= bytes@ + self.regions@[i as int].data@.subrange(bytes@.len() as int, n as int));
        assert(logged.regions[i as int] == self.regions@[i as int].view());
        let protection = self.regions[i].protection;
        let region = Region { address, data, protection };
        self.regions.set(i, region);
        assert(self.view().regions =~= logged.regions.update(i as int, region.view()));
        proof {
            lemma_find_region_bounds(old(self).view().regions, address, 0);
        }
        assert(region.view() == (RegionView {
            data: bytes@ + logged.regions[i as int].data.subrange(bytes@.len() as int, n as int),
            ..logged.regions[i as int]
        }));
        proof {
            let rs = self.view().regions;
            assert forall|a: int, b: int| 0 <= a < b < rs.len() implies rs[a].address < rs[b].address by {
                assert(rs[a].address == logged.regions[a].address);
                assert(rs[b].address == logged.regions[b].address);
            }
            assert forall|a: int| 0 <= a < rs.len() implies rs[a].address < self.next_address by {
                assert(rs[a].address == logged.regions[a].address);
            }
        }
        Ok(bytes.len())
    }

    /// The first `len` bytes of the allocation at `address`, where it holds so many.
    pub fn read(&self, address: u64, len: usize) -> (r: Option<Vec<u8>>)
        ensures
            r is Some <==> read_result(self.view(), address, len) is Some,
            r is Some ==> r->0@ == read_result(self.view(), address, len)->0,
    {
        let i = match self.region_index(address) {
            None => return None,
            Some(i) => i,
        };
        if len > self.regions[i].data.len() {
            return None;
        }
        let mut out: Vec<u8> = Vec::new();
        let mut k: usize = 0;
        while k < len
            invariant
                k <= len,
                i < self.regions@.len(),
                len <= self.regions@[i as int].data@.len(),
                out@ =~= self.regions@[i as int].data@.subrange(0, k as int),
            decreases len - k,
        {
            out.push(self.regions[i].data[k]);
            k = k + 1;
        }
        Some(out)
    }

    /// Releases the allocation at `address`. Calling it again, or on an
    /// address that holds nothing, does nothing and returns `false`.
    pub fn free(&mut self, address: u64) -> (r: bool)
        requires
            old(self).wf(),
        ensures
            final(self).wf(),
            r == (find_region(old(self).view().regions, address, 0) >= 0),
            final(self).view() == after_free(old(self).view(), address),
    {
        match self.region_index(address) {
            None => false,
            Some(i) => {
                let ghost before = self.view().regions;
                let _gone = self.regions.remove(i);
                self.history.push(Op::Freed(address));
                assert(self.view().regions =~= before.remove(i as int));
                proof {
                    let rs = self.view().regions;
                    assert forall|a: int, b: int| 0 <= a < b < rs.len() implies rs[a].address < rs[b].address by {
                        if a >= i as int {
                            assert(rs[a] == before[a + 1]);
                        }
                        if b >= i as int {
                            assert(rs[b] == before[b + 1]);
                        }
                    }
                    assert forall|a: int| 0 <= a < rs.len() implies rs[a].address < self.next_address by {
                        if a >= i as int {
                            assert(rs[a] == before[a + 1]);
                        }
                    }
                }
                true
            },
        }
    }

    /// Looks `symbol` of `module` up in the exports.
    pub fn resolve(&self, module: &str, symbol: &str) -> (r: Result<u64, ResolveError>)
        ensures
            r == resolve_result(self.view().exports, module@, symbol@),
    {
        let m = String::from_str(module);
        let s = String::from_str(symbol);
        let ghost ex = self.view().exports;
        let mut seen_module = false;
        let mut i: usize = 0;
        while i < self.exports.len()
            invariant
                i <= self.exports@.len(),
                ex == self.view().exports,
                m@ == module@,
                s@ == symbol@,
                find_export(ex, module@, symbol@, 0) == find_export(ex, module@, symbol@, i as int),
                seen_module <==> exists|j: int| 0 <= j < i && ex[j].module == module@,
            decreases self.exports@.len() - i,
        {
            assert(ex[i as int] == self.exports@[i as int].view());
            let same_module = self.exports[i].module == m;
            if same_module && self.exports[i].symbol == s {
                return Ok(self.exports[i].address);
            }
            if same_module {
                seen_module = true;
            }
            i = i + 1;
        }
        if seen_module {
            Err(ResolveError::SymbolNotFound)
        } else {
            Err(ResolveError::ModuleNotFound)
        }
    }

    /// Creates a thread that runs `start` with `argument`; `None` where no
    /// handle is left to give.
    pub fn spawn_thread(&mut self, start: u64, argument: u64) -> (r: Option<u64>)
        requires
            old(self).wf(),
        ensures
            final(self).wf(),
            old(self).view().next_handle < u64::MAX ==> r == Some(old(self).view().next_handle)
                && final(self).view() == (LoopbackView {
                    threads: old(self).view().threads.push(old(self).view().next_handle),
                    next_handle: (old(self).view().next_handle + 1) as u64,
                    history: old(self).view().history.push(Op::Spawned {
                        handle: old(self).view().next_handle,
                        start,
                        argument,
                    }),
                    ..old(self).view()
                }),
            old(self).view().next_handle == u64::MAX ==> r is None && final(self).view() == old(self).view(),
    {
        if self.next_handle == u64::MAX {
            return None;
        }
        let h = self.next_handle;
        self.threads.push(h);
        self.history.push(Op::Spawned { handle: h, start, argument });
        self.next_handle = h + 1;
        Some(h)
    }

    fn holds_thread(&self, thread: u64) -> (r: Option<usize>)
        ensures
            r matches Some(i) ==> i < self.threads@.len() && self.threads@[i as int] == thread
                && forall|j: int| 0 <= j < i ==> self.threads@[j] != thread,
            r is None ==> !self.threads@.contains(thread),
    {
        let mut i: usize = 0;
        while i < self.threads.len()
            invariant
                i <= self.threads@.len(),
                forall|j: int| 0 <= j < i ==> self.threads@[j] != thread,
            decreases self.threads@.len() - i,
        {
            if self.threads[i] == thread {
                return Some(i);
            }
            i = i + 1;
        }
        None
    }

    /// Whether the thread `thread` finishes within the wait.
    pub fn wait(&self, thread: u64) -> (r: bool)
        ensures
            r == (self.view().threads.contains(thread) && self.view().thread_exit is Some),
    {
        self.holds_thread(thread).is_some() && self.thread_exit.is_some()
    }

    /// The exit code of `thread`, where it has one.
    pub fn exit_code(&self, thread: u64) -> (r: Option<u32>)
        ensures
            r == (if self.view().threads.contains(thread) { self.view().thread_exit } else { None }),
    {
        if self.holds_thread(thread).is_some() {
            self.thread_exit
        } else {
            None
        }
    }

    /// Closes the handle `thread`; does nothing where it is not open.
    pub fn close_thread(&mut self, thread: u64) -> (r: bool)
        requires
            old(self).wf(),
        ensures
            final(self).wf(),
            r == old(self).view().threads.contains(thread),
            r ==> exists|i: int| 0 <= i < old(self).view().threads.len()
                && old(self).view().threads[i] == thread
                && (forall|j: int| 0 <= j < i ==> old(self).view().threads[j] != thread)
                && final(self).view() == (LoopbackView {
                    threads: old(self).view().threads.remove(i),
                    history: old(self).view().history.push(Op::ThreadClosed(thread)),
                    ..old(self).view()
                }),
            !r ==> final(self).view() == old(self).view(),
    {
        match self.holds_thread(thread) {
            None => false,
            Some(i) => {
                let _h = self.threads.remove(i);
                self.history.push(Op::ThreadClosed(thread));
                proof {
                    let ts = old(self).view().threads;
                    assert forall|k: int| 0 <= k < self.threads@.len() implies self.threads@[k] < self.next_handle by {
                        if k >= i as int {
                            assert(self.threads@[k] == ts[k + 1]);
                        } else {
                            assert(self.threads@[k] == ts[k]);
                        }
                    }
                }
                true
            },
        }
    }

    /// Ends the process.
    pub fn terminate(&mut self)
        ensures
            final(self).view() == (LoopbackView {
                history: old(self).view().history.push(Op::Terminated),
                ..old(self).view()
            }),
    {
        self.history.push(Op::Terminated);
    }

    /// Runs one injection of `path` against this process, answering each
    /// action of the injection machine. Whatever the outcome, every
    /// allocation and thread handle it made is released before it returns.
    pub fn inject(&mut self, path: &ModulePath) -> (r: InjectionResult)
        requires
            old(self).wf(),
            path.wf(),
        ensures
            final(self).wf(),
            r == expected_injection(old(self).view(), path.path_bytes().len() + 1).1,
            final(self).view().history
                == old(self).view().history + expected_injection(old(self).view(), path.path_bytes().len() + 1).0,
            final(self).view().regions == old(self).view().regions,
            final(self).view().threads == old(self).view().threads,
    {
        let mut m = Injection::new(path);
        let ghost init = self.view();
        let ghost buffer = m.spec_buffer();
        let ghost len = buffer.len();
        let ghost a = init.next_address;
        let ghost h = init.next_handle;
        let ghost e = expected_injection(init, len);
        let n: usize = m.buffer().len();
        let mut action = m.next_action();
        loop
            invariant
                len == n,
                self.wf(),
                m.wf(),
                init == old(self).view(),
                loopback_wf(init),
                m.spec_buffer() == buffer,
                buffer == path.path_bytes().push(0u8),
                len == buffer.len(),
                a == init.next_address,
                h == init.next_handle,
                e == expected_injection(init, len),
                action == action_of(m.view(), len),
                run_consistent(m.view(), self.view(), init, buffer),
            decreases measure(m.view()),
        {
            let ghost mv = m.view();
            let ghost pv = self.view();
            match action {
                Action::Done { result } => {
                    proof {
                        assert(owed_ops(mv) =~= Seq::<Op>::empty());
                        assert(pv.history =~= init.history + e.0);
                    }
                    return result;
                },
                Action::Allocate { size } => {
                    let event = match self.allocate(size, Protection::ReadWrite) {
                        Ok(al) => Event::Allocated(Ok(al.address)),
                        Err(er) => Event::Allocated(Err(er)),
                    };
                    proof { lemma_answer_progress(mv, len, event); }
                    action = m.advance(event);
                    proof {
                        if !grants(init, len as usize) {
                            assert(owed_ops(m.view()) =~= seq![Op::Terminated]);
                        }
                    }
                },
                Action::Write { address } => {
                    proof { lemma_find_region_unique(pv.regions, pv.next_address, init.regions.len() as int); }
                    let event = Event::Written(self.write(address, m.buffer()));
                    proof { lemma_answer_progress(mv, len, event); }
                    action = m.advance(event);
                    proof {
                        let pn = self.view();
                        let i = init.regions.len() as int;
                        assert(pv.regions[i].data.len() == len);
                        if init.deny_writes {
                            assert(owed_ops(m.view()) =~= seq![Op::Freed(a), Op::Terminated]);
                            assert(init.history + e.0 =~= pn.history + owed_ops(m.view()));
                            assert(pn.regions.subrange(0, init.regions.len() as int) =~= init.regions);
                        } else {
                            assert(buffer + pv.regions[i].data.subrange(len as int, len as int) =~= buffer);
                            assert(pn.regions =~= init.regions.push(
                                RegionView { address: a, data: buffer, protection: Protection::ReadWrite }));
                        }
                    }
                },
                Action::ResolveLoader => {
                    let event = Event::Resolved(self.resolve("kernel32.dll", "LoadLibraryA"));
                    proof { lemma_answer_progress(mv, len, event); }
                    action = m.advance(event);
                    proof {
                        let pn = self.view();
                        if loader_of(init) is Err {
                            assert(owed_ops(m.view()) =~= seq![Op::Freed(a), Op::Terminated]);
                            assert(init.history + e.0 =~= pn.history + owed_ops(m.view()));
                            assert(pn.regions.subrange(0, init.regions.len() as int) =~= init.regions);
                        }
                    }
                },
                Action::SpawnThread { start, argument } => {
                    let event = Event::Spawned(self.spawn_thread(start, argument));
                    proof { lemma_answer_progress(mv, len, event); }
                    action = m.advance(event);
                    proof {
                        let pn = self.view();
                        if h == u64::MAX {
                            assert(owed_ops(m.view()) =~= seq![Op::Freed(a), Op::Terminated]);
                            assert(init.history + e.0 =~= pn.history + owed_ops(m.view()));
                            assert(pn.regions.subrange(0, init.regions.len() as int) =~= init.regions);
                        }
                    }
                },
                Action::Wait { thread, timeout_ms: _ } => {
                    proof { assert(pv.threads[init.threads.len() as int] == h); }
                    let event = Event::Waited { completed: self.wait(thread) };
                    proof { lemma_answer_progress(mv, len, event); }
                    action = m.advance(event);
                    proof {
                        let pn = self.view();
                        if init.thread_exit is None {
                            assert(owed_ops(m.view()) =~= seq![Op::Freed(a), Op::ThreadClosed(h)]);
                            assert(init.history + e.0 =~= pn.history + owed_ops(m.view()));
                            assert(pn.regions.subrange(0, init.regions.len() as int) =~= init.regions);
                        }
                    }
                },
                Action::QueryExitCode { thread } => {
                    proof { assert(pv.threads[init.threads.len() as int] == h); }
                    let event = Event::ExitCode(self.exit_code(thread));
                    proof { lemma_answer_progress(mv, len, event); }
                    action = m.advance(event);
                    proof {
                        let pn = self.view();
                        assert(owed_ops(m.view()) =~= seq![Op::Freed(a), Op::ThreadClosed(h)]);
                        assert(init.history + e.0 =~= pn.history + owed_ops(m.view()));
                        assert(pn.regions.subrange(0, init.regions.len() as int) =~= init.regions);
                    }
                },
                Action::Free { address } => {
                    proof { lemma_find_region_unique(pv.regions, pv.next_address, init.regions.len() as int); }
                    self.free(address);
                    let event = Event::Freed;
                    proof { lemma_answer_progress(mv, len, event); }
                    action = m.advance(event);
                    proof {
                        let pn = self.view();
                        assert(pn.regions =~= init.regions);
                        assert(owed_ops(mv) =~= seq![Op::Freed(a)] + owed_ops(m.view()));
                        assert(init.history + e.0 =~= pn.history + owed_ops(m.view()));
                    }
                },
                Action::CloseThread { thread } => {
                    proof {
                        assert(pv.threads[init.threads.len() as int] == h);
                        assert(forall|j: int| 0 <= j < init.threads.len() ==> pv.threads[j] == init.threads[j]);
                    }
                    self.close_thread(thread);
                    let event = Event::ThreadClosed;
                    proof { lemma_answer_progress(mv, len, event); }
                    action = m.advance(event);
                    proof {
                        let pn = self.view();
                        assert(pn.threads =~= init.threads);
                        assert(owed_ops(mv) =~= seq![Op::ThreadClosed(h)] + owed_ops(m.view()));
                        assert(init.history + e.0 =~= pn.history + owed_ops(m.view()));
                    }
                },
                Action::Terminate => {
                    self.terminate();
                    let event = Event::Terminated;
                    proof { lemma_answer_progress(mv, len, event); }
                    action = m.advance(event);
                    proof {
                        let pn = self.view();
                        assert(owed_ops(mv) =~= seq![Op::Terminated] + owed_ops(m.view()));
                        assert(init.history + e.0 =~= pn.history + owed_ops(m.view()));
                    }
                },
            }
        }
    }

    /// Every operation performed on the process so far, oldest first.
    pub fn history(&self) -> (r: &[Op])
        ensures
            r@ == self.view().history,
    {
        self.history.as_slice()
    }

    /// How many allocations are live.
    pub fn live_allocations(&self) -> (r: usize)
        ensures
            r == self.view().regions.len(),
    {
        self.regions.len()
    }

    /// How many thread handles are open.
    pub fn open_threads(&self) -> (r: usize)
        ensures
            r == self.view().threads.len(),
    {
        self.threads.len()
    }
}

} // verus!
