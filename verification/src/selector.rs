//! The selection policy: which entry names qualify for decoding.
//!
//! Names inside an archive are raw bytes with no guarantee of being
//! well-formed text, so every check here works on byte strings.

use vstd::prelude::*;

verus! {

/// True when `pat` occurs in `s` as a contiguous run starting at index `i`.
pub open spec fn matches_at(s: Seq<u8>, pat: Seq<u8>, i: int) -> bool {
    0 <= i && i + pat.len() <= s.len() && s.subrange(i, i + pat.len()) == pat
}

/// True when `pat` occurs somewhere in `s` as a contiguous run.
pub open spec fn contains_seq(s: Seq<u8>, pat: Seq<u8>) -> bool {
    exists|i: int| matches_at(s, pat, i)
}

/// True when `s` ends with `pat`.
pub open spec fn ends_with_seq(s: Seq<u8>, pat: Seq<u8>) -> bool {
    pat.len() <= s.len() && s.subrange(s.len() - pat.len(), s.len() as int) == pat
}

/// Compares `pat` against the bytes of `s` starting at `i`.
fn bytes_eq_at(s: &[u8], pat: &[u8], i: usize) -> (r: bool)
    requires
        i + pat@.len() <= s@.len(),
    ensures
        r == matches_at(s@, pat@, i as int),
{
    let n = s.len();
    let m = pat.len();
    let mut k: usize = 0;
    while k < m
        invariant
            i + m <= n,
            n == s@.len(),
            m == pat@.len(),
            k <= m,
            forall|l: int| 0 <= l < k ==> s@[i + l] == pat@[l],
        decreases m - k,
    {
        if s[i + k] != pat[k] {
            assert(s@.subrange(i as int, i + m)[k as int] == s@[i + k]);
            return false;
        }
        k = k + 1;
    }
    assert(s@.subrange(i as int, i + m) =~= pat@);
    true
}

/// Whether `pat` occurs anywhere in `s`, by a linear scan of the
/// candidate start positions.
pub fn contains_bytes(s: &[u8], pat: &[u8]) -> (r: bool)
    ensures
        r == contains_seq(s@, pat@),
{
    let n = s.len();
    let m = pat.len();
    if m > n {
        assert(forall|i: int| !matches_at(s@, pat@, i));
        return false;
    }
    let last = n - m;
    let mut i: usize = 0;
    loop
        invariant
            m <= n,
            n == s@.len(),
            m == pat@.len(),
            last == n - m,
            i <= last,
            forall|j: int| 0 <= j < i ==> !matches_at(s@, pat@, j),
        ensures
            forall|j: int| 0 <= j <= last ==> !matches_at(s@, pat@, j),
        decreases last - i,
    {
        if bytes_eq_at(s, pat, i) {
            assert(matches_at(s@, pat@, i as int));
            return true;
        }
        if i == last {
            break;
        }
        i = i + 1;
    }
    assert(forall|j: int| matches_at(s@, pat@, j) ==> 0 <= j <= last);
    false
}

/// Whether `s` ends with `pat`.
pub fn ends_with_bytes(s: &[u8], pat: &[u8]) -> (r: bool)
    ensures
        r == ends_with_seq(s@, pat@),
{
    let n = s.len();
    let m = pat.len();
    if m > n {
        return false;
    }
    let r = bytes_eq_at(s, pat, n - m);
    assert(n - m + pat@.len() == s@.len());
    r
}

/// True when `name` denotes a directory entry: it ends with the path
/// separator `/`.
pub open spec fn is_dir_name(name: Seq<u8>) -> bool {
    name.len() >= 1 && name[name.len() - 1] == 47u8
}

/// The bytes of the macOS resource-fork directory marker `__MACOSX`.
pub open spec fn macosx_marker() -> Seq<u8> {
    seq![95u8, 95u8, 77u8, 65u8, 67u8, 79u8, 83u8, 88u8]
}

/// The bytes of the macOS filesystem-metadata file name `.DS_Store`.
pub open spec fn ds_store_name() -> Seq<u8> {
    seq![46u8, 68u8, 83u8, 95u8, 83u8, 116u8, 111u8, 114u8, 101u8]
}

/// The bytes of `__MACOSX`.
fn macosx_pat() -> (v: Vec<u8>)
    ensures
        v@ == macosx_marker(),
{
    let mut v: Vec<u8> = Vec::new();
    v.push(95u8);
    v.push(95u8);
    v.push(77u8);
    v.push(65u8);
    v.push(67u8);
    v.push(79u8);
    v.push(83u8);
    v.push(88u8);
    assert(v@ =~= macosx_marker());
    v
}

/// The bytes of `.DS_Store`.
fn ds_store_pat() -> (v: Vec<u8>)
    ensures
        v@ == ds_store_name(),
{
    let mut v: Vec<u8> = Vec::new();
    v.push(46u8);
    v.push(68u8);
    v.push(83u8);
    v.push(95u8);
    v.push(83u8);
    v.push(116u8);
    v.push(111u8);
    v.push(114u8);
    v.push(101u8);
    assert(v@ =~= ds_store_name());
    v
}

/// The bytes of the default candidate suffix `.json`.
pub open spec fn json_suffix() -> Seq<u8> {
    seq![46u8, 106u8, 115u8, 111u8, 110u8]
}

/// The bytes of the results-directory marker `results/`.
pub open spec fn results_marker() -> Seq<u8> {
    seq![114u8, 101u8, 115u8, 117u8, 108u8, 116u8, 115u8, 47u8]
}

/// The bytes of the blacklisted base name `invalid-issues`.
pub open spec fn invalid_issues_marker() -> Seq<u8> {
    seq![105u8, 110u8, 118u8, 97u8, 108u8, 105u8, 100u8, 45u8, 105u8, 115u8, 115u8, 117u8, 101u8, 115u8]
}

/// The bytes of `.json`.
pub fn json_suffix_pat() -> (v: Vec<u8>)
    ensures
        v@ == json_suffix(),
{
    let mut v: Vec<u8> = Vec::new();
    v.push(46u8);
    v.push(106u8);
    v.push(115u8);
    v.push(111u8);
    v.push(110u8);
    assert(v@ =~= json_suffix());
    v
}

/// The bytes of `results/`.
pub fn results_marker_pat() -> (v: Vec<u8>)
    ensures
        v@ == results_marker(),
{
    let mut v: Vec<u8> = Vec::new();
    v.push(114u8);
    v.push(101u8);
    v.push(115u8);
    v.push(117u8);
    v.push(108u8);
    v.push(116u8);
    v.push(115u8);
    v.push(47u8);
    assert(v@ =~= results_marker());
    v
}

/// The bytes of `invalid-issues`.
pub fn invalid_issues_pat() -> (v: Vec<u8>)
    ensures
        v@ == invalid_issues_marker(),
{
    let mut v: Vec<u8> = Vec::new();
    v.push(105u8);
    v.push(110u8);
    v.push(118u8);
    v.push(97u8);
    v.push(108u8);
    v.push(105u8);
    v.push(100u8);
    v.push(45u8);
    v.push(105u8);
    v.push(115u8);
    v.push(115u8);
    v.push(117u8);
    v.push(101u8);
    v.push(115u8);
    assert(v@ =~= invalid_issues_marker());
    v
}

/// The selection policy an entry name must satisfy for its payload to be
/// decoded.
pub struct SelectorConfig {
    /// A candidate name must end with this byte string.
    pub suffix: Vec<u8>,
    /// When nonempty, a candidate name must contain at least one of
    /// these byte strings.
    pub path_any: Vec<Vec<u8>>,
    /// A name containing any of these byte strings is excluded.
    pub exclude_contains: Vec<Vec<u8>>,
    /// Exclude names that end with the path separator `/`.
    pub exclude_dir_entries: bool,
    /// Exclude macOS resource-fork and filesystem-metadata entries.
    pub exclude_platform_artifacts: bool,
}

impl SelectorConfig {
    /// The path constraint: no marker is configured, or the name
    /// contains at least one of them.
    pub open spec fn spec_path_ok(self, name: Seq<u8>) -> bool {
        self.path_any@.len() == 0 || exists|i: int|
            0 <= i < self.path_any@.len() && contains_seq(name, self.path_any@[i]@)
    }

    /// Whether the name falls under one of the exclusion rules.
    pub open spec fn spec_excluded(self, name: Seq<u8>) -> bool {
        (exists|i: int|
            0 <= i < self.exclude_contains@.len() && contains_seq(
                name,
                self.exclude_contains@[i]@,
            )) || (self.exclude_dir_entries && is_dir_name(name)) || (
        self.exclude_platform_artifacts && (contains_seq(name, macosx_marker()) || ends_with_seq(
            name,
            ds_store_name(),
        )))
    }

    /// Whether the name qualifies: it carries the configured suffix,
    /// satisfies the path constraint, and is not excluded.
    pub open spec fn spec_selects(self, name: Seq<u8>) -> bool {
        ends_with_seq(name, self.suffix@) && self.spec_path_ok(name) && !self.spec_excluded(name)
    }

    /// Decides the selection policy on a raw entry name.
    pub fn selects(&self, name: &[u8]) -> (r: bool)
        ensures
            r == self.spec_selects(name@),
    {
        if !ends_with_bytes(name, self.suffix.as_slice()) {
            return false;
        }
        if self.path_any.len() > 0 {
            let mut found = false;
            let mut i: usize = 0;
            while i < self.path_any.len()
                invariant
                    i <= self.path_any@.len(),
                    found == exists|j: int|
                        0 <= j < i && contains_seq(name@, self.path_any@[j]@),
                decreases self.path_any@.len() - i,
            {
                let pat = &self.path_any[i];
                if contains_bytes(name, pat.as_slice()) {
                    found = true;
                }
                i = i + 1;
            }
            if !found {
                return false;
            }
        }
        let mut i: usize = 0;
        while i < self.exclude_contains.len()
            invariant
                i <= self.exclude_contains@.len(),
                forall|j: int| 0 <= j < i ==> !contains_seq(name@, self.exclude_contains@[j]@),
            decreases self.exclude_contains@.len() - i,
        {
            let pat = &self.exclude_contains[i];
            if contains_bytes(name, pat.as_slice()) {
                return false;
            }
            i = i + 1;
        }
        if self.exclude_dir_entries && name.len() > 0 {
            if name[name.len() - 1] == 47u8 {
                return false;
            }
        }
        if self.exclude_platform_artifacts {
            let macosx = macosx_pat();
            if contains_bytes(name, macosx.as_slice()) {
                return false;
            }
            let ds = ds_store_pat();
            if ends_with_bytes(name, ds.as_slice()) {
                return false;
            }
        }
        true
    }

    /// The plainest policy: any entry named `*.json`, wherever it lies.
    pub fn json_only() -> (r: Self)
        ensures
            r.suffix@ == json_suffix(),
            r.path_any@.len() == 0,
            r.exclude_contains@.len() == 0,
            !r.exclude_dir_entries,
            !r.exclude_platform_artifacts,
    {
        SelectorConfig {
            suffix: json_suffix_pat(),
            path_any: Vec::new(),
            exclude_contains: Vec::new(),
            exclude_dir_entries: false,
            exclude_platform_artifacts: false,
        }
    }

    /// The results-directory policy: `*.json` entries under a `results/`
    /// path segment, without the `invalid-issues` blacklist entries,
    /// directory entries, or macOS metadata.
    pub fn json_results() -> (r: Self)
        ensures
            r.suffix@ == json_suffix(),
            r.path_any@.len() == 1,
            r.path_any@[0]@ == results_marker(),
            r.exclude_contains@.len() == 1,
            r.exclude_contains@[0]@ == invalid_issues_marker(),
            r.exclude_dir_entries,
            r.exclude_platform_artifacts,
    {
        let mut path_any: Vec<Vec<u8>> = Vec::new();
        path_any.push(results_marker_pat());
        let mut exclude_contains: Vec<Vec<u8>> = Vec::new();
        exclude_contains.push(invalid_issues_pat());
        SelectorConfig {
            suffix: json_suffix_pat(),
            path_any,
            exclude_contains,
            exclude_dir_entries: true,
            exclude_platform_artifacts: true,
        }
    }
}

impl Default for SelectorConfig {
    /// The default policy: `*.json` entries anywhere, excluding
    /// directory entries and macOS metadata.
    fn default() -> (r: Self)
        ensures
            r.suffix@ == json_suffix(),
            r.path_any@.len() == 0,
            r.exclude_contains@.len() == 0,
            r.exclude_dir_entries,
            r.exclude_platform_artifacts,
    {
        SelectorConfig {
            suffix: json_suffix_pat(),
            path_any: Vec::new(),
            exclude_contains: Vec::new(),
            exclude_dir_entries: true,
            exclude_platform_artifacts: true,
        }
    }
}

} // verus!
