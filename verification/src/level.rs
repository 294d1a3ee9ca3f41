//! Verbosity levels and level filters.
//!
//! A [`Level`] is the severity of one record; a [`LevelFilter`] is a threshold
//! that records are held against. Both are ranked by an integer, `Off` being
//! 0 and `Trace` 5, and every comparison goes by that rank.

use vstd::prelude::*;
use vstd::string::*;
use core::cmp::Ordering;
use core::str::FromStr;

verus! {

broadcast use vstd::slice::group_slice_axioms;

/// The upper-case form of an ASCII letter; every other byte is itself.
pub open spec fn ascii_upper(b: u8) -> u8 {
    if 97 <= b && b <= 122 {
        (b - 32) as u8
    } else {
        b
    }
}

/// Two byte strings are equal up to the case of their ASCII letters.
pub open spec fn eq_ignoring_ascii_case(a: Seq<u8>, b: Seq<u8>) -> bool {
    &&& a.len() == b.len()
    &&& forall|i: int| 0 <= i < a.len() ==> ascii_upper(#[trigger] a[i]) == ascii_upper(b[i])
}

/// The number of log level names, `OFF` included.
pub const LEVEL_NAME_COUNT: usize = 6;

/// The name of the level with the given rank.
pub open spec fn level_name(rank: int) -> Seq<char> {
    if rank == 0 {
        "OFF"@
    } else if rank == 1 {
        "ERROR"@
    } else if rank == 2 {
        "WARN"@
    } else if rank == 3 {
        "INFO"@
    } else if rank == 4 {
        "DEBUG"@
    } else {
        "TRACE"@
    }
}

/// The first rank, if any, whose name equals `name` up to ASCII case.
pub open spec fn name_position(name: Seq<u8>, from: int) -> Option<int>
    decreases LEVEL_NAME_COUNT - from,
{
    if from < 0 || from >= LEVEL_NAME_COUNT {
        None
    } else if eq_ignoring_ascii_case(level_name_bytes(from), name) {
        Some(from)
    } else {
        name_position(name, from + 1)
    }
}

/// Turns an `Option` into a `Result`, with `e` as the error of `None`.
pub fn ok_or<T, E>(t: Option<T>, e: E) -> (r: Result<T, E>)
    ensures
        r == match t {
            Some(v) => Ok::<T, E>(v),
            None => Err::<T, E>(e),
        },
{
    match t {
        Some(v) => Ok(v),
        None => Err(e),
    }
}

/// Maps an ASCII lower-case letter to its upper-case form.
pub fn to_ascii_uppercase(c: u8) -> (r: u8)
    ensures
        r == ascii_upper(c),
{
    if c >= 97 && c <= 122 {
        c - 32
    } else {
        c
    }
}

/// Compares two strings byte by byte, ignoring the case of ASCII letters.
pub fn eq_ignore_ascii_case(a: &str, b: &str) -> (r: bool)
    ensures
        r == eq_ignoring_ascii_case(a.spec_bytes(), b.spec_bytes()),
{
    let ab = a.as_bytes();
    let bb = b.as_bytes();
    if ab.len() != bb.len() {
        return false;
    }
    let mut i: usize = 0;
    while i < ab.len()
        invariant
            i <= ab.len(),
            ab.len() == bb.len(),
            ab@ == a.spec_bytes(),
            bb@ == b.spec_bytes(),
            forall|j: int| 0 <= j < i ==> ascii_upper(#[trigger] ab@[j]) == ascii_upper(bb@[j]),
        decreases ab.len() - i,
    {
        if to_ascii_uppercase(ab[i]) != to_ascii_uppercase(bb[i]) {
            return false;
        }
        i += 1;
    }
    true
}

/// How two ranks compare.
pub open spec fn rank_order(a: int, b: int) -> Ordering {
    if a < b {
        Ordering::Less
    } else if a == b {
        Ordering::Equal
    } else {
        Ordering::Greater
    }
}

/// How two ranks compare, computed.
fn order_of_ranks(a: usize, b: usize) -> (r: Ordering)
    ensures
        a < b ==> r == Ordering::Less,
        a == b ==> r == Ordering::Equal,
        a > b ==> r == Ordering::Greater,
{
    if a < b {
        Ordering::Less
    } else if a == b {
        Ordering::Equal
    } else {
        Ordering::Greater
    }
}

/// The names of the levels and filters by rank, `OFF` first.
pub fn level_names() -> (r: &'static [&'static str])
    ensures
        r@.len() == LEVEL_NAME_COUNT,
        forall|rank: int| 0 <= rank < r@.len() ==> (#[trigger] r@[rank])@ == level_name(rank),
{
    &["OFF", "ERROR", "WARN", "INFO", "DEBUG", "TRACE"]
}

/// The name of the level with the given rank, as a static string.
fn name_of_rank(rank: usize) -> (r: &'static str)
    requires
        rank < LEVEL_NAME_COUNT,
    ensures
        r@ == level_name(rank as int),
{
    level_names()[rank]
}

/// Finds the first rank whose name equals `name` up to ASCII case.
fn position_of_name(name: &str) -> (r: Option<usize>)
    ensures
        match r {
            Some(p) => name_position(name.spec_bytes(), 0) == Some(p as int),
            None => name_position(name.spec_bytes(), 0).is_none(),
        },
{
    let mut rank: usize = 0;
    while rank < LEVEL_NAME_COUNT
        invariant
            rank <= LEVEL_NAME_COUNT,
            name_position(name.spec_bytes(), 0) == name_position(name.spec_bytes(), rank as int),
        decreases LEVEL_NAME_COUNT - rank,
    {
        if eq_ignore_ascii_case(name_of_rank(rank), name) {
            return Some(rank);
        }
        rank += 1;
    }
    None
}

/// The type returned when a string matches none of the log levels.
#[derive(Debug, Eq)]
pub struct ParseLevelError(pub ());

impl PartialEq for ParseLevelError {
    fn eq(&self, other: &ParseLevelError) -> (r: bool) {
        true
    }
}

impl vstd::std_specs::cmp::PartialEqSpecImpl for ParseLevelError {
    open spec fn obeys_eq_spec() -> bool {
        true
    }

    open spec fn eq_spec(&self, other: &ParseLevelError) -> bool {
        true
    }
}

impl ParseLevelError {
    /// What went wrong, in words.
    pub fn description(&self) -> (r: &'static str)
        ensures
            r@ == "attempted to convert a string that doesn't match an existing log level"@,
    {
        "attempted to convert a string that doesn't match an existing log level"
    }
}

/// The verbosity level of a log record.
#[derive(Clone, Copy, Debug, Hash, Eq, Ord)]
pub enum Level {
    /// Designates very serious errors.
    Error,
    /// Designates hazardous situations.
    Warn,
    /// Designates useful information.
    Info,
    /// Designates lower priority information.
    Debug,
    /// Designates very low priority, often extremely verbose, information.
    Trace,
}

/// A threshold on the verbosity of log records.
#[derive(Clone, Copy, Debug, Hash, Eq, Ord)]
pub enum LevelFilter {
    /// A level lower than all log levels.
    Off,
    /// Corresponds to the `Error` log level.
    Error,
    /// Corresponds to the `Warn` log level.
    Warn,
    /// Corresponds to the `Info` log level.
    Info,
    /// Corresponds to the `Debug` log level.
    Debug,
    /// Corresponds to the `Trace` log level.
    Trace,
}

impl Level {
    /// The rank of the level: 1 for `Error` up to 5 for `Trace`.
    pub open spec fn rank(self) -> int {
        match self {
            Level::Error => 1,
            Level::Warn => 2,
            Level::Info => 3,
            Level::Debug => 4,
            Level::Trace => 5,
        }
    }

    /// The level of a rank, if the rank is one of 1 to 5.
    pub open spec fn of_rank(rank: int) -> Option<Level> {
        if rank == 1 {
            Some(Level::Error)
        } else if rank == 2 {
            Some(Level::Warn)
        } else if rank == 3 {
            Some(Level::Info)
        } else if rank == 4 {
            Some(Level::Debug)
        } else if rank == 5 {
            Some(Level::Trace)
        } else {
            None
        }
    }

    /// The level that a name stands for, if any. `OFF` names no level.
    pub open spec fn of_name(name: Seq<u8>) -> Option<Level> {
        match name_position(name, 0) {
            Some(p) => Level::of_rank(p),
            None => None,
        }
    }

    /// The rank of the level as a machine integer.
    pub fn to_usize(self) -> (r: usize)
        ensures
            r == self.rank(),
    {
        match self {
            Level::Error => 1,
            Level::Warn => 2,
            Level::Info => 3,
            Level::Debug => 4,
            Level::Trace => 5,
        }
    }

    /// The level of a rank, if the rank is one of 1 to 5.
    pub fn from_usize(u: usize) -> (r: Option<Level>)
        ensures
            r == Level::of_rank(u as int),
    {
        match u {
            1 => Some(Level::Error),
            2 => Some(Level::Warn),
            3 => Some(Level::Info),
            4 => Some(Level::Debug),
            5 => Some(Level::Trace),
            _ => None,
        }
    }

    /// Returns the most verbose logging level.
    pub fn max() -> (r: Level)
        ensures
            r == Level::Trace,
            forall|l: Level| l.rank() <= r.rank(),
    {
        Level::Trace
    }

    /// The names of the levels, in the order of their ranks: the variants
    /// that a level is written as.
    pub fn variant_names() -> (r: &'static [&'static str])
        ensures
            r@.len() == LEVEL_NAME_COUNT - 1,
            forall|i: int| 0 <= i < r@.len() ==> (#[trigger] r@[i])@ == level_name(i + 1),
    {
        &["ERROR", "WARN", "INFO", "DEBUG", "TRACE"]
    }

    /// The place of the level among [`Level::variant_names`].
    pub fn variant_index(&self) -> (r: u32)
        ensures
            r == self.rank() - 1,
    {
        match self {
            Level::Error => 0,
            Level::Warn => 1,
            Level::Info => 2,
            Level::Debug => 3,
            Level::Trace => 4,
        }
    }

    /// Converts the `Level` to the equivalent `LevelFilter`.
    pub fn to_level_filter(&self) -> (r: LevelFilter)
        ensures
            r.rank() == self.rank(),
    {
        match self {
            Level::Error => LevelFilter::Error,
            Level::Warn => LevelFilter::Warn,
            Level::Info => LevelFilter::Info,
            Level::Debug => LevelFilter::Debug,
            Level::Trace => LevelFilter::Trace,
        }
    }

    /// The name of the level, in upper case.
    pub fn as_str(&self) -> (r: &'static str)
        ensures
            r@ == level_name(self.rank()),
    {
        name_of_rank(self.to_usize())
    }

    /// The name of the level, in upper case, as an owned string.
    pub fn to_string(&self) -> (r: String)
        ensures
            r@ == level_name(self.rank()),
    {
        self.as_str().to_owned()
    }

    /// Reads a level from its name, ignoring the case of ASCII letters.
    ///
    /// The name `OFF` and every string that is no level name are errors.
    pub fn from_name(level: &str) -> (r: Result<Level, ParseLevelError>)
        ensures
            r == match Level::of_name(level.spec_bytes()) {
                Some(l) => Ok::<Level, ParseLevelError>(l),
                None => Err::<Level, ParseLevelError>(ParseLevelError(())),
            },
    {
        match position_of_name(level) {
            Some(p) => ok_or(Level::from_usize(p), ParseLevelError(())),
            None => Err(ParseLevelError(())),
        }
    }
}

impl LevelFilter {
    /// The rank of the filter: 0 for `Off` up to 5 for `Trace`.
    pub open spec fn rank(self) -> int {
        match self {
            LevelFilter::Off => 0,
            LevelFilter::Error => 1,
            LevelFilter::Warn => 2,
            LevelFilter::Info => 3,
            LevelFilter::Debug => 4,
            LevelFilter::Trace => 5,
        }
    }

    /// The filter of a rank, if the rank is one of 0 to 5.
    pub open spec fn of_rank(rank: int) -> Option<LevelFilter> {
        if rank == 0 {
            Some(LevelFilter::Off)
        } else if rank == 1 {
            Some(LevelFilter::Error)
        } else if rank == 2 {
            Some(LevelFilter::Warn)
        } else if rank == 3 {
            Some(LevelFilter::Info)
        } else if rank == 4 {
            Some(LevelFilter::Debug)
        } else if rank == 5 {
            Some(LevelFilter::Trace)
        } else {
            None
        }
    }

    /// The filter that a name stands for, if any.
    pub open spec fn of_name(name: Seq<u8>) -> Option<LevelFilter> {
        match name_position(name, 0) {
            Some(p) => LevelFilter::of_rank(p),
            None => None,
        }
    }

    /// The rank of the filter as a machine integer.
    pub fn to_usize(self) -> (r: usize)
        ensures
            r == self.rank(),
    {
        match self {
            LevelFilter::Off => 0,
            LevelFilter::Error => 1,
            LevelFilter::Warn => 2,
            LevelFilter::Info => 3,
            LevelFilter::Debug => 4,
            LevelFilter::Trace => 5,
        }
    }

    /// The filter of a rank, if the rank is one of 0 to 5.
    pub fn from_usize(u: usize) -> (r: Option<LevelFilter>)
        ensures
            r == LevelFilter::of_rank(u as int),
    {
        match u {
            0 => Some(LevelFilter::Off),
            1 => Some(LevelFilter::Error),
            2 => Some(LevelFilter::Warn),
            3 => Some(LevelFilter::Info),
            4 => Some(LevelFilter::Debug),
            5 => Some(LevelFilter::Trace),
            _ => None,
        }
    }

    /// Returns the most verbose logging level filter.
    pub fn max() -> (r: LevelFilter)
        ensures
            r == LevelFilter::Trace,
            forall|f: LevelFilter| f.rank() <= r.rank(),
    {
        LevelFilter::Trace
    }

    /// The names of the filters, in the order of their ranks: the variants
    /// that a filter is written as.
    pub fn variant_names() -> (r: &'static [&'static str])
        ensures
            r@.len() == LEVEL_NAME_COUNT,
            forall|i: int| 0 <= i < r@.len() ==> (#[trigger] r@[i])@ == level_name(i),
    {
        level_names()
    }

    /// The place of the filter among [`LevelFilter::variant_names`].
    pub fn variant_index(&self) -> (r: u32)
        ensures
            r == self.rank(),
    {
        match self {
            LevelFilter::Off => 0,
            LevelFilter::Error => 1,
            LevelFilter::Warn => 2,
            LevelFilter::Info => 3,
            LevelFilter::Debug => 4,
            LevelFilter::Trace => 5,
        }
    }

    /// Converts `self` to the equivalent `Level`.
    ///
    /// Returns `None` if `self` is `LevelFilter::Off`.
    pub fn to_level(&self) -> (r: Option<Level>)
        ensures
            r == Level::of_rank(self.rank()),
    {
        Level::from_usize(self.to_usize())
    }

    /// The name of the filter, in upper case.
    pub fn as_str(&self) -> (r: &'static str)
        ensures
            r@ == level_name(self.rank()),
    {
        name_of_rank(self.to_usize())
    }

    /// The name of the filter, in upper case, as an owned string.
    pub fn to_string(&self) -> (r: String)
        ensures
            r@ == level_name(self.rank()),
    {
        self.as_str().to_owned()
    }

    /// Reads a filter from its name, ignoring the case of ASCII letters.
    pub fn from_name(level: &str) -> (r: Result<LevelFilter, ParseLevelError>)
        ensures
            r == match LevelFilter::of_name(level.spec_bytes()) {
                Some(f) => Ok::<LevelFilter, ParseLevelError>(f),
                None => Err::<LevelFilter, ParseLevelError>(ParseLevelError(())),
            },
    {
        match position_of_name(level) {
            Some(p) => ok_or(LevelFilter::from_usize(p), ParseLevelError(())),
            None => Err(ParseLevelError(())),
        }
    }
}

impl PartialEq for Level {
    fn eq(&self, other: &Level) -> (r: bool) {
        self.to_usize() == other.to_usize()
    }
}

impl vstd::std_specs::cmp::PartialEqSpecImpl for Level {
    open spec fn obeys_eq_spec() -> bool {
        true
    }

    open spec fn eq_spec(&self, other: &Level) -> bool {
        *self == *other
    }
}

impl PartialOrd for Level {
    fn partial_cmp(&self, other: &Level) -> (r: Option<Ordering>) {
        Some(order_of_ranks(self.to_usize(), other.to_usize()))
    }
}

impl vstd::std_specs::cmp::PartialOrdSpecImpl for Level {
    open spec fn obeys_partial_cmp_spec() -> bool {
        true
    }

    open spec fn partial_cmp_spec(&self, other: &Level) -> Option<Ordering> {
        Some(rank_order(self.rank(), other.rank()))
    }
}

impl PartialEq<LevelFilter> for Level {
    fn eq(&self, other: &LevelFilter) -> (r: bool) {
        self.to_usize() == other.to_usize()
    }
}

impl vstd::std_specs::cmp::PartialEqSpecImpl<LevelFilter> for Level {
    open spec fn obeys_eq_spec() -> bool {
        true
    }

    open spec fn eq_spec(&self, other: &LevelFilter) -> bool {
        self.rank() == other.rank()
    }
}

impl PartialOrd<LevelFilter> for Level {
    fn partial_cmp(&self, other: &LevelFilter) -> (r: Option<Ordering>) {
        Some(order_of_ranks(self.to_usize(), other.to_usize()))
    }
}

impl vstd::std_specs::cmp::PartialOrdSpecImpl<LevelFilter> for Level {
    open spec fn obeys_partial_cmp_spec() -> bool {
        true
    }

    open spec fn partial_cmp_spec(&self, other: &LevelFilter) -> Option<Ordering> {
        Some(rank_order(self.rank(), other.rank()))
    }
}

impl PartialEq for LevelFilter {
    fn eq(&self, other: &LevelFilter) -> (r: bool) {
        self.to_usize() == other.to_usize()
    }
}

impl vstd::std_specs::cmp::PartialEqSpecImpl for LevelFilter {
    open spec fn obeys_eq_spec() -> bool {
        true
    }

    open spec fn eq_spec(&self, other: &LevelFilter) -> bool {
        *self == *other
    }
}

impl PartialOrd for LevelFilter {
    fn partial_cmp(&self, other: &LevelFilter) -> (r: Option<Ordering>) {
        Some(order_of_ranks(self.to_usize(), other.to_usize()))
    }
}

impl vstd::std_specs::cmp::PartialOrdSpecImpl for LevelFilter {
    open spec fn obeys_partial_cmp_spec() -> bool {
        true
    }

    open spec fn partial_cmp_spec(&self, other: &LevelFilter) -> Option<Ordering> {
        Some(rank_order(self.rank(), other.rank()))
    }
}

impl PartialEq<Level> for LevelFilter {
    fn eq(&self, other: &Level) -> (r: bool) {
        self.to_usize() == other.to_usize()
    }
}

impl vstd::std_specs::cmp::PartialEqSpecImpl<Level> for LevelFilter {
    open spec fn obeys_eq_spec() -> bool {
        true
    }

    open spec fn eq_spec(&self, other: &Level) -> bool {
        self.rank() == other.rank()
    }
}

impl PartialOrd<Level> for LevelFilter {
    fn partial_cmp(&self, other: &Level) -> (r: Option<Ordering>) {
        Some(order_of_ranks(self.to_usize(), other.to_usize()))
    }
}

impl vstd::std_specs::cmp::PartialOrdSpecImpl<Level> for LevelFilter {
    open spec fn obeys_partial_cmp_spec() -> bool {
        true
    }

    open spec fn partial_cmp_spec(&self, other: &Level) -> Option<Ordering> {
        Some(rank_order(self.rank(), other.rank()))
    }
}

impl FromStr for Level {
    type Err = ParseLevelError;

    fn from_str(level: &str) -> (r: Result<Level, ParseLevelError>)
        ensures
            r == match Level::of_name(level.spec_bytes()) {
                Some(l) => Ok::<Level, ParseLevelError>(l),
                None => Err::<Level, ParseLevelError>(ParseLevelError(())),
            },
    {
        Level::from_name(level)
    }
}

impl FromStr for LevelFilter {
    type Err = ParseLevelError;

    fn from_str(level: &str) -> (r: Result<LevelFilter, ParseLevelError>)
        ensures
            r == match LevelFilter::of_name(level.spec_bytes()) {
                Some(f) => Ok::<LevelFilter, ParseLevelError>(f),
                None => Err::<LevelFilter, ParseLevelError>(ParseLevelError(())),
            },
    {
        LevelFilter::from_name(level)
    }
}

/// Every string equals itself up to ASCII case.
pub proof fn lemma_eq_ignoring_case_reflexive(a: Seq<u8>)
    ensures
        eq_ignoring_ascii_case(a, a),
{
}

/// Equality up to ASCII case does not depend on the side.
pub proof fn lemma_eq_ignoring_case_symmetric(a: Seq<u8>, b: Seq<u8>)
    ensures
        eq_ignoring_ascii_case(a, b) == eq_ignoring_ascii_case(b, a),
{
    if eq_ignoring_ascii_case(a, b) {
        assert forall|i: int| 0 <= i < b.len() implies ascii_upper(#[trigger] b[i]) == ascii_upper(
            a[i],
        ) by {
            assert(ascii_upper(a[i]) == ascii_upper(b[i]));
        }
    }
    if eq_ignoring_ascii_case(b, a) {
        assert forall|i: int| 0 <= i < a.len() implies ascii_upper(#[trigger] a[i]) == ascii_upper(
            b[i],
        ) by {
            assert(ascii_upper(b[i]) == ascii_upper(a[i]));
        }
    }
}

/// Equality up to ASCII case carries over: what equals `b`, which equals
/// `c`, equals `c`.
pub proof fn lemma_eq_ignoring_case_transitive(a: Seq<u8>, b: Seq<u8>, c: Seq<u8>)
    requires
        eq_ignoring_ascii_case(a, b),
        eq_ignoring_ascii_case(b, c),
    ensures
        eq_ignoring_ascii_case(a, c),
{
    assert forall|i: int| 0 <= i < a.len() implies ascii_upper(#[trigger] a[i]) == ascii_upper(
        c[i],
    ) by {
        assert(ascii_upper(a[i]) == ascii_upper(b[i]));
        assert(ascii_upper(b[i]) == ascii_upper(c[i]));
    }
}

/// A level is the level of its rank, and so is a filter; a rank out of
/// range is the rank of none.
pub proof fn lemma_rank_round_trip(level: Level, filter: LevelFilter, rank: int)
    ensures
        Level::of_rank(level.rank()) == Some(level),
        LevelFilter::of_rank(filter.rank()) == Some(filter),
        Level::of_rank(rank) matches Some(l) ==> l.rank() == rank,
        LevelFilter::of_rank(rank) matches Some(f) ==> f.rank() == rank,
        Level::of_rank(rank) is Some <==> 1 <= rank <= 5,
        LevelFilter::of_rank(rank) is Some <==> 0 <= rank <= 5,
{
}

/// The filter of a level converts back to the level, and `Off` is the one
/// filter that is the filter of no level.
pub proof fn lemma_level_filter_round_trip(level: Level, filter: LevelFilter)
    ensures
        filter.rank() == level.rank() ==> Level::of_rank(filter.rank()) == Some(level),
        Level::of_rank(filter.rank()).is_none() <==> filter == LevelFilter::Off,
{
}

/// The bytes of the name of a rank.
pub open spec fn level_name_bytes(rank: int) -> Seq<u8> {
    vstd::utf8::encode_utf8(level_name(rank))
}

/// The names of the levels, byte by byte.
pub proof fn lemma_level_name_bytes()
    ensures
        level_name_bytes(0) == seq![79u8, 70u8, 70u8],
        level_name_bytes(1) == seq![69u8, 82u8, 82u8, 79u8, 82u8],
        level_name_bytes(2) == seq![87u8, 65u8, 82u8, 78u8],
        level_name_bytes(3) == seq![73u8, 78u8, 70u8, 79u8],
        level_name_bytes(4) == seq![68u8, 69u8, 66u8, 85u8, 71u8],
        level_name_bytes(5) == seq![84u8, 82u8, 65u8, 67u8, 69u8],
{
    reveal_strlit("OFF");
    reveal_strlit("ERROR");
    reveal_strlit("WARN");
    reveal_strlit("INFO");
    reveal_strlit("DEBUG");
    reveal_strlit("TRACE");
    vstd::utf8::is_ascii_chars_encode_utf8("OFF"@);
    vstd::utf8::is_ascii_chars_encode_utf8("ERROR"@);
    vstd::utf8::is_ascii_chars_encode_utf8("WARN"@);
    vstd::utf8::is_ascii_chars_encode_utf8("INFO"@);
    vstd::utf8::is_ascii_chars_encode_utf8("DEBUG"@);
    vstd::utf8::is_ascii_chars_encode_utf8("TRACE"@);
    assert(level_name_bytes(0) =~= seq![79u8, 70u8, 70u8]);
    assert(level_name_bytes(1) =~= seq![69u8, 82u8, 82u8, 79u8, 82u8]);
    assert(level_name_bytes(2) =~= seq![87u8, 65u8, 82u8, 78u8]);
    assert(level_name_bytes(3) =~= seq![73u8, 78u8, 70u8, 79u8]);
    assert(level_name_bytes(4) =~= seq![68u8, 69u8, 66u8, 85u8, 71u8]);
    assert(level_name_bytes(5) =~= seq![84u8, 82u8, 65u8, 67u8, 69u8]);
}

/// No two level names are equal up to ASCII case: a name stands for one rank.
pub proof fn lemma_level_names_distinct(a: int, b: int)
    requires
        0 <= a < LEVEL_NAME_COUNT,
        0 <= b < LEVEL_NAME_COUNT,
        a != b,
    ensures
        !eq_ignoring_ascii_case(level_name_bytes(a), level_name_bytes(b)),
{
    lemma_level_name_bytes();
    let x = level_name_bytes(a);
    let y = level_name_bytes(b);
    if x.len() == y.len() {
        assert(ascii_upper(x[0]) != ascii_upper(y[0]));
    }
}

/// A string that equals the name of a rank up to ASCII case is read as
/// that rank: reading undoes writing, whatever the case.
pub proof fn lemma_name_position(name: Seq<u8>, rank: int)
    requires
        0 <= rank < LEVEL_NAME_COUNT,
        eq_ignoring_ascii_case(level_name_bytes(rank), name),
    ensures
        name_position(name, 0) == Some(rank),
{
    reveal_with_fuel(name_position, 7);
    assert forall|other: int| 0 <= other < LEVEL_NAME_COUNT && other != rank implies
        !eq_ignoring_ascii_case(level_name_bytes(other), name) by {
        if eq_ignoring_ascii_case(level_name_bytes(other), name) {
            lemma_eq_ignoring_case_symmetric(level_name_bytes(rank), name);
            lemma_eq_ignoring_case_transitive(level_name_bytes(other), name, level_name_bytes(rank));
            lemma_level_names_distinct(other, rank);
        }
    }
    assert(!(rank != 0) || !eq_ignoring_ascii_case(level_name_bytes(0), name));
    assert(!(rank != 1) || !eq_ignoring_ascii_case(level_name_bytes(1), name));
    assert(!(rank != 2) || !eq_ignoring_ascii_case(level_name_bytes(2), name));
    assert(!(rank != 3) || !eq_ignoring_ascii_case(level_name_bytes(3), name));
    assert(!(rank != 4) || !eq_ignoring_ascii_case(level_name_bytes(4), name));
    assert(!(rank != 5) || !eq_ignoring_ascii_case(level_name_bytes(5), name));
}

/// The name of a level is read as the level, and the name of a filter as
/// the filter.
pub proof fn lemma_name_round_trip(level: Level, filter: LevelFilter)
    ensures
        Level::of_name(level_name_bytes(level.rank())) == Some(level),
        LevelFilter::of_name(level_name_bytes(filter.rank())) == Some(filter),
{
    lemma_eq_ignoring_case_reflexive(level_name_bytes(level.rank()));
    lemma_name_position(level_name_bytes(level.rank()), level.rank());
    lemma_eq_ignoring_case_reflexive(level_name_bytes(filter.rank()));
    lemma_name_position(level_name_bytes(filter.rank()), filter.rank());
}

/// Levels and filters are ordered as their ranks are: a level passes a
/// filter exactly when its rank is no greater.
pub proof fn lemma_rank_order(a: int, b: int)
    ensures
        rank_order(a, b) == Ordering::Less <==> a < b,
        rank_order(a, b) == Ordering::Equal <==> a == b,
        rank_order(a, b) == Ordering::Greater <==> a > b,
        rank_order(b, a) == Ordering::Less <==> rank_order(a, b) == Ordering::Greater,
{
}

} // verus!
