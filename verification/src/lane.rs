//! Discovery of a run's per-lane outputs.
//!
//! A run's base calls live under `Data/Intensities/BaseCalls/` in up to
//! eight lane directories `L001` .. `L008`; each lane holds cycle
//! directories `C<n>.<m>` full of (c)bcl files, plus filter files.  The
//! crate never reads the filesystem, so the caller hands each constructor
//! the directory listing it observed, and everything from name parsing to
//! the assembled [`Lane`] values is verified.

use vstd::prelude::*;
use vstd::string::StringExecFns;

use crate::pathstr;
use crate::pathstr::spec_ends_with;
use crate::pathstr::spec_file_extension;
use crate::pathstr::spec_file_name;
use crate::pathstr::spec_file_stem;
use crate::pathstr::spec_parse_uint;
use crate::pathstr::spec_starts_with;
use crate::SeqDirError;
use crate::SeqDirErrorV;

verus! {

/// A base-call file: plain or compressed.
#[derive(Clone, Debug, PartialEq)]
pub enum Bcl {
    Bcl(String),
    CBcl(String),
}

/// Spec-level value of a [`Bcl`].
pub enum BclV {
    Bcl(Seq<char>),
    CBcl(Seq<char>),
}

impl View for Bcl {
    type V = BclV;

    open spec fn view(&self) -> BclV {
        match self {
            Bcl::Bcl(p) => BclV::Bcl(p@),
            Bcl::CBcl(p) => BclV::CBcl(p@),
        }
    }
}

/// How a path classifies as a base-call file: `cbcl` and `cbcl.gz` endings
/// are compressed, `bcl` and `bcl.gz` endings are plain, anything else is
/// no base-call file.
pub open spec fn spec_bcl_from_path(p: Seq<char>) -> Option<BclV> {
    if spec_ends_with(p, "cbcl"@) || spec_ends_with(p, "cbcl.gz"@) {
        Some(BclV::CBcl(p))
    } else if spec_ends_with(p, "bcl"@) || spec_ends_with(p, "bcl.gz"@) {
        Some(BclV::Bcl(p))
    } else {
        None
    }
}

impl Bcl {
    /// Classifies a path as a base-call file by its ending.
    pub fn from_path(path: &str) -> (r: Option<Bcl>)
        ensures
            r matches Some(b) ==> spec_bcl_from_path(path@) == Some(b@),
            r is None ==> spec_bcl_from_path(path@) is None,
    {
        if pathstr::ends_with(path, "cbcl") || pathstr::ends_with(path, "cbcl.gz") {
            Some(Bcl::CBcl(String::from_str(path)))
        } else if pathstr::ends_with(path, "bcl") || pathstr::ends_with(path, "bcl.gz") {
            Some(Bcl::Bcl(String::from_str(path)))
        } else {
            None
        }
    }
}

/// The views of a sequence of path strings.
pub open spec fn path_views(ss: Seq<String>) -> Seq<Seq<char>> {
    ss.map_values(|s: String| s@)
}

/// The views of a sequence of base-call files.
pub open spec fn bcl_views(bs: Seq<Bcl>) -> Seq<BclV> {
    bs.map_values(|b: Bcl| b@)
}

/// A cycle: its number, its directory, and the base-call files found in it.
#[derive(Clone, Debug, PartialEq)]
pub struct Cycle {
    pub cycle_num: u16,
    pub root: String,
    pub bcls: Vec<Bcl>,
}

/// Spec-level value of a [`Cycle`].
#[verifier::ext_equal]
pub struct CycleV {
    pub cycle_num: u16,
    pub root: Seq<char>,
    pub bcls: Seq<BclV>,
}

impl View for Cycle {
    type V = CycleV;

    open spec fn view(&self) -> CycleV {
        CycleV { cycle_num: self.cycle_num, root: self.root@, bcls: bcl_views(self.bcls@) }
    }
}

/// The base-call files among `entries`, in order.
pub open spec fn spec_collect_bcls(entries: Seq<Seq<char>>) -> Seq<BclV>
    decreases entries.len(),
{
    if entries.len() == 0 {
        Seq::empty()
    } else {
        let rest = spec_collect_bcls(entries.drop_last());
        match spec_bcl_from_path(entries.last()) {
            Some(b) => rest.push(b),
            None => rest,
        }
    }
}

/// What reading a cycle directory yields: the cycle number parsed from the
/// directory name's stem after its `C` prefix, and the base-call files
/// among the directory's entries, of which there must be at least one.
pub open spec fn spec_cycle_from_path(path: Seq<char>, entries: Seq<Seq<char>>) -> Result<
    CycleV,
    SeqDirErrorV,
> {
    match spec_file_stem(path) {
        None => Err(SeqDirErrorV::BadCycle(path)),
        Some(stem) => if !spec_starts_with(stem, "C"@) {
            Err(SeqDirErrorV::BadCycle(path))
        } else {
            match spec_parse_uint(stem.subrange(1, stem.len() as int), u16::MAX as int) {
                None => Err(SeqDirErrorV::ParseIntError),
                Some(n) => {
                    let bcls = spec_collect_bcls(entries);
                    if bcls.len() == 0 {
                        Err(SeqDirErrorV::MissingBcls(n as u16))
                    } else {
                        Ok(CycleV { cycle_num: n as u16, root: path, bcls })
                    }
                },
            }
        },
    }
}

impl Cycle {
    /// Reads the directory at `path`, whose entries the caller observed as
    /// `entries`, as a cycle.
    ///
    /// Fails when the directory name's stem does not start with `C`
    /// followed by a cycle number, or when no entry is a base-call file.
    pub fn from_path(path: String, entries: &Vec<String>) -> (r: Result<Cycle, SeqDirError>)
        ensures
            r matches Ok(c) ==> spec_cycle_from_path(path@, path_views(entries@)) == Ok::<
                CycleV,
                SeqDirErrorV,
            >(c@),
            r matches Err(e) ==> spec_cycle_from_path(path@, path_views(entries@)) == Err::<
                CycleV,
                SeqDirErrorV,
            >(e@),
    {
        proof {
            reveal_strlit("C");
        }
        let mut bad_cycle = false;
        let mut parse_err = false;
        let mut num: u16 = 0;
        match pathstr::file_stem(path.as_str()) {
            None => {
                bad_cycle = true;
            },
            Some(stem) => match pathstr::strip_prefix(stem, "C") {
                None => {
                    bad_cycle = true;
                },
                Some(digits) => match pathstr::parse_u16(digits) {
                    None => {
                        parse_err = true;
                    },
                    Some(n) => {
                        num = n;
                    },
                },
            },
        }
        if bad_cycle {
            return Err(SeqDirError::BadCycle(path));
        }
        if parse_err {
            return Err(SeqDirError::ParseIntError);
        }
        let ghost all = path_views(entries@);
        let mut bcls: Vec<Bcl> = Vec::new();
        proof {
            assert(all.take(0) =~= Seq::<Seq<char>>::empty());
            assert(bcl_views(bcls@) =~= Seq::<BclV>::empty());
        }
        let mut i: usize = 0;
        while i < entries.len()
            invariant
                i <= entries.len(),
                all == path_views(entries@),
                bcl_views(bcls@) == spec_collect_bcls(all.take(i as int)),
            decreases entries.len() - i,
        {
            let ghost prev = bcls@;
            match Bcl::from_path(entries[i].as_str()) {
                Some(b) => {
                    bcls.push(b);
                    proof {
                        assert(bcl_views(bcls@) =~= bcl_views(prev).push(bcls@.last()@));
                    }
                },
                None => {},
            }
            proof {
                assert(all.take(i + 1).drop_last() =~= all.take(i as int));
                assert(all.take(i + 1).last() == entries@[i as int]@);
            }
            i += 1;
        }
        proof {
            assert(all.take(entries@.len() as int) =~= all);
        }
        if bcls.len() == 0 {
            return Err(SeqDirError::MissingBcls(num));
        }
        Ok(Cycle { cycle_num: num, root: path, bcls })
    }

    /// The cycle's number.
    pub fn cycle_num(&self) -> (r: u16)
        ensures
            r == self@.cycle_num,
    {
        self.cycle_num
    }

    /// The cycle's base-call files.
    pub fn bcls(&self) -> (r: &Vec<Bcl>)
        ensures
            bcl_views(r@) == self@.bcls,
    {
        &self.bcls
    }
}

/// One entry of a lane directory's listing, as the caller observed it:
/// the entry's path, what it is, and — when it is a directory — the paths
/// listed inside it.
#[derive(Clone, Debug, PartialEq)]
pub struct LaneEntry {
    /// The entry's path.
    pub path: String,
    /// The entry is a directory.
    pub is_dir: bool,
    /// The entry is a regular file.
    pub is_file: bool,
    /// For a directory, the paths of its own entries.
    pub children: Vec<String>,
}

/// Spec-level value of a [`LaneEntry`].
#[verifier::ext_equal]
pub struct LaneEntryV {
    pub path: Seq<char>,
    pub is_dir: bool,
    pub is_file: bool,
    pub children: Seq<Seq<char>>,
}

impl View for LaneEntry {
    type V = LaneEntryV;

    open spec fn view(&self) -> LaneEntryV {
        LaneEntryV {
            path: self.path@,
            is_dir: self.is_dir,
            is_file: self.is_file,
            children: path_views(self.children@),
        }
    }
}

/// The views of a sequence of lane entries.
pub open spec fn entry_views(es: Seq<LaneEntry>) -> Seq<LaneEntryV> {
    es.map_values(|e: LaneEntry| e@)
}

/// A lane: its number, its cycles and its filter files.
#[derive(Clone, Debug, PartialEq)]
pub struct Lane {
    pub lane_num: u8,
    cycles: Vec<Cycle>,
    filters: Vec<String>,
}

/// Spec-level value of a [`Lane`].
#[verifier::ext_equal]
pub struct LaneV {
    pub lane_num: u8,
    pub cycles: Seq<CycleV>,
    pub filters: Seq<Seq<char>>,
}

/// The views of a sequence of cycles.
pub open spec fn cycle_views(cs: Seq<Cycle>) -> Seq<CycleV> {
    cs.map_values(|c: Cycle| c@)
}

/// The views of a sequence of lanes.
pub open spec fn lane_views(ls: Seq<Lane>) -> Seq<LaneV> {
    ls.map_values(|l: Lane| l@)
}

impl View for Lane {
    type V = LaneV;

    closed spec fn view(&self) -> LaneV {
        LaneV {
            lane_num: self.lane_num,
            cycles: cycle_views(self.cycles@),
            filters: path_views(self.filters@),
        }
    }
}

/// Whether a lane-directory entry is read as a cycle directory: a
/// directory whose name starts with `C`.
pub open spec fn spec_is_cycle_entry(e: LaneEntryV) -> bool {
    e.is_dir && match spec_file_name(e.path) {
        Some(name) => spec_starts_with(name, "C"@),
        None => false,
    }
}

/// Whether a lane-directory entry is read as a filter file: a regular file
/// with the `filter` extension.
pub open spec fn spec_is_filter_entry(e: LaneEntryV) -> bool {
    e.is_file && spec_file_extension(e.path) == Some("filter"@)
}

/// The cycles read from a lane directory's entries, in order, stopping at
/// the first entry that fails to read.
pub open spec fn spec_collect_cycles(entries: Seq<LaneEntryV>) -> Result<Seq<CycleV>, SeqDirErrorV>
    decreases entries.len(),
{
    if entries.len() == 0 {
        Ok(Seq::empty())
    } else {
        match spec_collect_cycles(entries.drop_last()) {
            Err(e) => Err(e),
            Ok(rest) => {
                let last = entries.last();
                if spec_is_cycle_entry(last) {
                    match spec_cycle_from_path(last.path, last.children) {
                        Err(e) => Err(e),
                        Ok(c) => Ok(rest.push(c)),
                    }
                } else {
                    Ok(rest)
                }
            },
        }
    }
}

/// The filter files among a lane directory's entries, in order.
pub open spec fn spec_collect_filters(entries: Seq<LaneEntryV>) -> Seq<Seq<char>>
    decreases entries.len(),
{
    if entries.len() == 0 {
        Seq::empty()
    } else {
        let rest = spec_collect_filters(entries.drop_last());
        if spec_is_filter_entry(entries.last()) {
            rest.push(entries.last().path)
        } else {
            rest
        }
    }
}

/// What reading a lane directory yields: the lane number parsed from the
/// directory name's stem after its `L` prefix, the cycles read from its
/// entries — of which there must be at least one — and its filter files.
pub open spec fn spec_lane_from_path(path: Seq<char>, entries: Seq<LaneEntryV>) -> Result<
    LaneV,
    SeqDirErrorV,
> {
    match spec_file_stem(path) {
        None => Err(SeqDirErrorV::MissingLaneDirs),
        Some(stem) => if !spec_starts_with(stem, "L"@) {
            Err(SeqDirErrorV::MissingLaneDirs)
        } else {
            match spec_parse_uint(stem.subrange(1, stem.len() as int), u8::MAX as int) {
                None => Err(SeqDirErrorV::ParseIntError),
                Some(n) => match spec_collect_cycles(entries) {
                    Err(e) => Err(e),
                    Ok(cycles) => if cycles.len() == 0 {
                        Err(SeqDirErrorV::MissingCycles)
                    } else {
                        Ok(
                            LaneV {
                                lane_num: n as u8,
                                cycles,
                                filters: spec_collect_filters(entries),
                            },
                        )
                    },
                },
            }
        },
    }
}

/// The lane number a lane directory's name parses to, when its stem is
/// `L` followed by a number in range.
pub open spec fn spec_lane_num(path: Seq<char>) -> Option<int> {
    match spec_file_stem(path) {
        None => None,
        Some(stem) => if !spec_starts_with(stem, "L"@) {
            None
        } else {
            spec_parse_uint(stem.subrange(1, stem.len() as int), u8::MAX as int)
        },
    }
}

proof fn lemma_collect_cycles_prefix_err(entries: Seq<LaneEntryV>, i: int)
    requires
        0 <= i <= entries.len(),
        spec_collect_cycles(entries.take(i)) is Err,
    ensures
        spec_collect_cycles(entries) == spec_collect_cycles(entries.take(i)),
    decreases entries.len(),
{
    if i < entries.len() {
        assert(entries.drop_last() =~= entries.take(entries.len() - 1));
        assert(entries.take(entries.len() - 1).take(i) =~= entries.take(i));
        lemma_collect_cycles_prefix_err(entries.take(entries.len() - 1), i);
    } else {
        assert(entries.take(i) =~= entries);
    }
}

impl Lane {
    /// Reads the directory at `path`, whose listing the caller observed as
    /// `entries`, as a lane.
    ///
    /// Fails when the directory name's stem does not start with `L`
    /// followed by a lane number, when any cycle directory fails to read,
    /// or when there is no cycle directory at all.
    pub fn from_path(path: &str, entries: &Vec<LaneEntry>) -> (r: Result<Lane, SeqDirError>)
        ensures
            r matches Ok(l) ==> spec_lane_from_path(path@, entry_views(entries@)) == Ok::<
                LaneV,
                SeqDirErrorV,
            >(l@),
            r matches Err(e) ==> spec_lane_from_path(path@, entry_views(entries@)) == Err::<
                LaneV,
                SeqDirErrorV,
            >(e@),
    {
        proof {
            reveal_strlit("L");
        }
        let mut bad_lane = false;
        let mut parse_err = false;
        let mut num: u8 = 0;
        match pathstr::file_stem(path) {
            None => {
                bad_lane = true;
            },
            Some(stem) => match pathstr::strip_prefix(stem, "L") {
                None => {
                    bad_lane = true;
                },
                Some(digits) => match pathstr::parse_u8(digits) {
                    None => {
                        parse_err = true;
                    },
                    Some(n) => {
                        num = n;
                    },
                },
            },
        }
        if bad_lane {
            return Err(SeqDirError::MissingLaneDirs);
        }
        if parse_err {
            return Err(SeqDirError::ParseIntError);
        }
        let ghost all = entry_views(entries@);
        let mut cycles: Vec<Cycle> = Vec::new();
        proof {
            assert(all.take(0) =~= Seq::<LaneEntryV>::empty());
            assert(cycle_views(cycles@) =~= Seq::<CycleV>::empty());
        }
        let mut i: usize = 0;
        while i < entries.len()
            invariant
                i <= entries.len(),
                all == entry_views(entries@),
                spec_lane_num(path@) == Some(num as int),
                spec_collect_cycles(all.take(i as int)) == Ok::<Seq<CycleV>, SeqDirErrorV>(
                    cycle_views(cycles@),
                ),
            decreases entries.len() - i,
        {
            let e = &entries[i];
            let is_cycle = e.is_dir && match pathstr::file_name(e.path.as_str()) {
                Some(name) => pathstr::starts_with(name, "C"),
                None => false,
            };
            proof {
                assert(all.take(i + 1).drop_last() =~= all.take(i as int));
                assert(all.take(i + 1).last() == entries@[i as int]@);
            }
            if is_cycle {
                let ghost prev = cycles@;
                match Cycle::from_path(e.path.clone(), &e.children) {
                    Ok(c) => {
                        cycles.push(c);
                        proof {
                            assert(cycle_views(cycles@) =~= cycle_views(prev).push(
                                cycles@.last()@,
                            ));
                        }
                    },
                    Err(err) => {
                        proof {
                            lemma_collect_cycles_prefix_err(all, i + 1);
                        }
                        return Err(err);
                    },
                }
            }
            i += 1;
        }
        proof {
            assert(all.take(entries@.len() as int) =~= all);
        }
        if cycles.len() == 0 {
            return Err(SeqDirError::MissingCycles);
        }
        let mut filters: Vec<String> = Vec::new();
        proof {
            assert(all.take(0) =~= Seq::<LaneEntryV>::empty());
            assert(path_views(filters@) =~= Seq::<Seq<char>>::empty());
        }
        let mut j: usize = 0;
        while j < entries.len()
            invariant
                j <= entries.len(),
                all == entry_views(entries@),
                path_views(filters@) == spec_collect_filters(all.take(j as int)),
            decreases entries.len() - j,
        {
            let e = &entries[j];
            proof {
                assert(all.take(j + 1).drop_last() =~= all.take(j as int));
                assert(all.take(j + 1).last() == entries@[j as int]@);
            }
            let is_filter = e.is_file && match pathstr::file_extension(e.path.as_str()) {
                Some(ext) => pathstr::str_eq(ext, "filter"),
                None => false,
            };
            if is_filter {
                let ghost prev = filters@;
                filters.push(e.path.clone());
                proof {
                    assert(path_views(filters@) =~= path_views(prev).push(filters@.last()@));
                }
            }
            j += 1;
        }
        proof {
            assert(all.take(entries@.len() as int) =~= all);
        }
        Ok(Lane { lane_num: num, cycles, filters })
    }

    /// The lane's cycles.
    pub fn cycles(&self) -> (r: &Vec<Cycle>)
        ensures
            cycle_views(r@) == self@.cycles,
    {
        &self.cycles
    }

    /// An iterator over the lane's cycles.
    pub fn iter_cycles(&self) -> (r: core::slice::Iter<'_, Cycle>)
        ensures
            cycle_views(vstd::std_specs::slice::into_iter_elts(r)) == self@.cycles,
    {
        let s = self.cycles.as_slice();
        let it = s.iter();
        proof {
            broadcast use vstd::std_specs::slice::axiom_spec_slice_iter;

            assert(vstd::std_specs::slice::into_iter_elts(it) =~= s@);
        }
        it
    }

    /// The lane's filter files.
    pub fn filters(&self) -> (r: &Vec<String>)
        ensures
            path_views(r@) == self@.filters,
    {
        &self.filters
    }

    /// An iterator over the lane's filter files.
    pub fn iter_filters(&self) -> (r: core::slice::Iter<'_, String>)
        ensures
            path_views(vstd::std_specs::slice::into_iter_elts(r)) == self@.filters,
    {
        let s = self.filters.as_slice();
        let it = s.iter();
        proof {
            broadcast use vstd::std_specs::slice::axiom_spec_slice_iter;

            assert(vstd::std_specs::slice::into_iter_elts(it) =~= s@);
        }
        it
    }
}

/// The caller's probe of one candidate lane directory: whether the path
/// exists at all, and — when it does — the listing observed there.
#[derive(Clone, Debug, PartialEq)]
pub struct LaneProbe {
    /// The candidate lane directory exists.
    pub exists: bool,
    /// Its listing, when it exists.
    pub entries: Vec<LaneEntry>,
}

/// Spec-level value of a [`LaneProbe`].
#[verifier::ext_equal]
pub struct LaneProbeV {
    pub exists: bool,
    pub entries: Seq<LaneEntryV>,
}

impl View for LaneProbe {
    type V = LaneProbeV;

    open spec fn view(&self) -> LaneProbeV {
        LaneProbeV { exists: self.exists, entries: entry_views(self.entries@) }
    }
}

/// The views of a sequence of lane probes.
pub open spec fn probe_views(ps: Seq<LaneProbe>) -> Seq<LaneProbeV> {
    ps.map_values(|p: LaneProbe| p@)
}

/// The name of the candidate lane directory at position `i`.
pub open spec fn spec_lane_dir_name(i: int) -> Seq<char> {
    if i == 0 {
        "L001"@
    } else if i == 1 {
        "L002"@
    } else if i == 2 {
        "L003"@
    } else if i == 3 {
        "L004"@
    } else if i == 4 {
        "L005"@
    } else if i == 5 {
        "L006"@
    } else if i == 6 {
        "L007"@
    } else {
        "L008"@
    }
}

/// The name of the candidate lane directory at position `i`.
fn lane_dir_name(i: usize) -> (r: &'static str)
    requires
        i < 8,
    ensures
        r@ == spec_lane_dir_name(i as int),
{
    match i {
        0 => "L001",
        1 => "L002",
        2 => "L003",
        3 => "L004",
        4 => "L005",
        5 => "L006",
        6 => "L007",
        _ => "L008",
    }
}

/// The path of the candidate lane directory at position `i` under run root
/// `dir`.
pub open spec fn spec_lane_dir_path(dir: Seq<char>, i: int) -> Seq<char> {
    crate::spec_join(
        crate::spec_join(dir, "Data/Intensities/BaseCalls/"@),
        spec_lane_dir_name(i),
    )
}

/// The lanes read from the first `n` candidate lane directories: absent
/// candidates are skipped, present ones must read as lanes, and the first
/// failure stops the collection.
pub open spec fn spec_detect_prefix(dir: Seq<char>, probes: Seq<LaneProbeV>, n: int) -> Result<
    Seq<LaneV>,
    SeqDirErrorV,
>
    decreases n,
{
    if n <= 0 {
        Ok(Seq::empty())
    } else {
        match spec_detect_prefix(dir, probes, n - 1) {
            Err(e) => Err(e),
            Ok(acc) => {
                let p = probes[n - 1];
                if !p.exists {
                    Ok(acc)
                } else {
                    match spec_lane_from_path(spec_lane_dir_path(dir, n - 1), p.entries) {
                        Err(e) => Err(e),
                        Ok(l) => Ok(acc.push(l)),
                    }
                }
            },
        }
    }
}

proof fn lemma_detect_prefix_err(dir: Seq<char>, probes: Seq<LaneProbeV>, k: int, n: int)
    requires
        0 <= k <= n,
        spec_detect_prefix(dir, probes, k) is Err,
    ensures
        spec_detect_prefix(dir, probes, n) == spec_detect_prefix(dir, probes, k),
    decreases n,
{
    if n > k {
        lemma_detect_prefix_err(dir, probes, k, n - 1);
    }
}

/// What lane detection over run root `dir` yields, given the caller's
/// probes of the eight candidate lane directories.
pub open spec fn spec_detect_lanes(dir: Seq<char>, probes: Seq<LaneProbeV>) -> Result<
    Seq<LaneV>,
    SeqDirErrorV,
> {
    spec_detect_prefix(dir, probes, probes.len() as int)
}

/// Reads the run's lanes.
///
/// `probes` holds the caller's observation of the eight candidate lane
/// directories `L001` .. `L008` under `Data/Intensities/BaseCalls/`, in
/// that order.  Candidates that do not exist are skipped; every one that
/// exists must read as a lane, with its cycles and base-call files in
/// place.
pub fn detect_lanes(dir: &str, probes: &Vec<LaneProbe>) -> (r: Result<Vec<Lane>, SeqDirError>)
    requires
        probes@.len() == 8,
    ensures
        r matches Ok(lanes) ==> spec_detect_lanes(dir@, probe_views(probes@)) == Ok::<
            Seq<LaneV>,
            SeqDirErrorV,
        >(lane_views(lanes@)),
        r matches Err(e) ==> spec_detect_lanes(dir@, probe_views(probes@)) == Err::<
            Seq<LaneV>,
            SeqDirErrorV,
        >(e@),
{
    let ghost all = probe_views(probes@);
    let basecalls = pathstr::join(dir, "Data/Intensities/BaseCalls/");
    let mut lanes: Vec<Lane> = Vec::new();
    proof {
        assert(lane_views(lanes@) =~= Seq::<LaneV>::empty());
    }
    let mut i: usize = 0;
    while i < 8
        invariant
            i <= 8,
            all == probe_views(probes@),
            probes@.len() == 8,
            basecalls@ == crate::spec_join(dir@, "Data/Intensities/BaseCalls/"@),
            spec_detect_prefix(dir@, all, i as int) == Ok::<Seq<LaneV>, SeqDirErrorV>(
                lane_views(lanes@),
            ),
        decreases 8 - i,
    {
        let p = &probes[i];
        if p.exists {
            let lane_path = pathstr::join(basecalls.as_str(), lane_dir_name(i));
            let ghost prev = lanes@;
            match Lane::from_path(lane_path.as_str(), &p.entries) {
                Ok(lane) => {
                    lanes.push(lane);
                    proof {
                        assert(lane_views(lanes@) =~= lane_views(prev).push(lanes@.last()@));
                    }
                },
                Err(e) => {
                    proof {
                        lemma_detect_prefix_err(dir@, all, i + 1, 8);
                    }
                    return Err(e);
                },
            }
        }
        i += 1;
    }
    Ok(lanes)
}

} // verus!
