//! Declared extension identities with version floors, and the dependency
//! resolver: a depth-first traversal that emits every extension after its
//! dependencies, detecting cycles, missing entries and version mismatches.

use vstd::prelude::*;
use vstd::set_lib::{lemma_int_range, lemma_len_subset, set_int_range};
use crate::error::ExtensionError;
use crate::text::{spec_dec, u64_to_string};

verus! {

/// The numeric core of a semantic version. Ordering is lexicographic over
/// major, minor and patch, which matches semantic-version precedence for
/// versions without pre-release identifiers; this type carries none.
#[derive(Debug, Clone, Copy, PartialEq, Eq, Structural)]
pub struct Version {
    pub major: u64,
    pub minor: u64,
    pub patch: u64,
}

impl Version {
    pub fn new(major: u64, minor: u64, patch: u64) -> (v: Self)
        ensures
            v == (Version { major, minor, patch }),
    {
        Version { major, minor, patch }
    }

    /// Lexicographic order over (major, minor, patch).
    pub open spec fn spec_le(self, other: Version) -> bool {
        ||| self.major < other.major
        ||| (self.major == other.major && self.minor < other.minor)
        ||| (self.major == other.major && self.minor == other.minor && self.patch <= other.patch)
    }

    pub fn le(&self, other: &Version) -> (r: bool)
        ensures
            r == self.spec_le(*other),
    {
        if self.major != other.major {
            self.major < other.major
        } else if self.minor != other.minor {
            self.minor < other.minor
        } else {
            self.patch <= other.patch
        }
    }

    /// The "major.minor.patch" rendering.
    pub open spec fn spec_text(self) -> Seq<char> {
        spec_dec(self.major as nat) + "."@ + spec_dec(self.minor as nat) + "."@ + spec_dec(
            self.patch as nat,
        )
    }

    pub fn to_text(&self) -> (s: String)
        ensures
            s@ == self.spec_text(),
    {
        u64_to_string(self.major).concat(".").concat(u64_to_string(self.minor).as_str()).concat(
            ".",
        ).concat(u64_to_string(self.patch).as_str())
    }
}

/// What `semver::Version::parse` accepts, and the major, minor and patch
/// numbers it returns then: a function of the text alone.
pub uninterp spec fn semver_core(text: Seq<char>) -> Option<(u64, u64, u64)>;

/// Relies on `semver::Version::parse`: whether the text is a valid semantic
/// version, and its three numeric components, depend on the text alone; the
/// wrapper keeps those components and drops pre-release and build metadata.
#[verifier::external_body]
fn parse_semver(text: &str) -> (r: Option<(u64, u64, u64)>)
    ensures
        r == semver_core(text@),
{
    match semver::Version::parse(text) {
        Ok(v) => Some((v.major, v.minor, v.patch)),
        Err(_) => None,
    }
}

/// A dependency on another extension: its id and the minimum version that
/// satisfies the dependent.
#[derive(Debug, Clone, PartialEq, Eq)]
pub struct ExtensionDependency {
    pub unique_id: String,
    pub version: Version,
}

impl ExtensionDependency {
    pub fn new(unique_id: &str, version: Version) -> (d: Self)
        ensures
            d.unique_id@ == unique_id@,
            d.version == version,
    {
        ExtensionDependency { unique_id: unique_id.to_owned(), version }
    }

    /// Parses the minimum version from text, as a semantic version.
    pub fn from_str(unique_id: &str, version_str: &str) -> (r: Result<Self, ExtensionError>)
        ensures
            semver_core(version_str@) matches Some(v) ==> (r matches Ok(d) && d.unique_id@
                == unique_id@ && d.version == (Version { major: v.0, minor: v.1, patch: v.2 })),
            semver_core(version_str@) is None ==> (r matches Err(e) && e matches
                ExtensionError::DependencyError(m) && m@ == "Invalid version: "@ + version_str@),
    {
        match parse_semver(version_str) {
            Some(v) => Ok(
                ExtensionDependency {
                    unique_id: unique_id.to_owned(),
                    version: Version { major: v.0, minor: v.1, patch: v.2 },
                },
            ),
            None => {
                let m = String::from_str("Invalid version: ").concat(version_str);
                Err(ExtensionError::DependencyError(m))
            },
        }
    }

    /// The floor check: a declared minimum version is satisfied by any
    /// available version at or above it. There is no upper bound.
    pub fn satisfies(&self, other_version: &Version) -> (r: bool)
        ensures
            r == self.version.spec_le(*other_version),
    {
        self.version.le(other_version)
    }
}

/// One registered extension: id, version, declared dependencies.
#[derive(Debug, Clone)]
pub struct ExtensionInfo {
    pub unique_id: String,
    pub version: Version,
    pub dependencies: Vec<ExtensionDependency>,
}

/// Whether some registered extension carries the id.
pub open spec fn has_ext(exts: Seq<ExtensionInfo>, id: Seq<char>) -> bool {
    exists|k: int| 0 <= k < exts.len() && exts[k].unique_id@ == id
}

/// Index of the first registered extension with the id, or -1.
pub open spec fn find_index(exts: Seq<ExtensionInfo>, id: Seq<char>) -> int
    decreases exts.len(),
{
    if exts.len() == 0 {
        -1
    } else if exts[0].unique_id@ == id {
        0
    } else {
        let r = find_index(exts.drop_first(), id);
        if r < 0 {
            -1
        } else {
            r + 1
        }
    }
}

pub proof fn lemma_find_index(exts: Seq<ExtensionInfo>, id: Seq<char>)
    ensures
        has_ext(exts, id) <==> 0 <= find_index(exts, id) < exts.len(),
        has_ext(exts, id) ==> exts[find_index(exts, id)].unique_id@ == id,
        !has_ext(exts, id) ==> find_index(exts, id) == -1,
        forall|k: int| 0 <= k < find_index(exts, id) ==> exts[k].unique_id@ != id,
    decreases exts.len(),
{
    if exts.len() > 0 && exts[0].unique_id@ != id {
        lemma_find_index(exts.drop_first(), id);
        assert forall|k: int| 0 <= k < exts.len() && exts[k].unique_id@ == id implies has_ext(
            exts.drop_first(),
            id,
        ) by {
            assert(exts.drop_first()[k - 1].unique_id@ == id);
        }
        if has_ext(exts, id) {
            let r = find_index(exts.drop_first(), id);
            assert forall|k: int| 0 <= k < r + 1 implies exts[k].unique_id@ != id by {
                if k > 0 {
                    assert(exts.drop_first()[k - 1].unique_id@ != id);
                }
            }
        }
    }
}

/// If `i` is the first index carrying `id`, then `find_index` returns `i`.
pub proof fn lemma_find_index_first(exts: Seq<ExtensionInfo>, id: Seq<char>, i: int)
    requires
        0 <= i < exts.len(),
        exts[i].unique_id@ == id,
        forall|k: int| 0 <= k < i ==> exts[k].unique_id@ != id,
    ensures
        find_index(exts, id) == i,
    decreases exts.len(),
{
    if i > 0 {
        assert forall|k: int| 0 <= k < i - 1 implies exts.drop_first()[k].unique_id@ != id by {
            assert(exts.drop_first()[k] == exts[k + 1]);
        }
        assert(exts.drop_first()[i - 1].unique_id@ == id);
        lemma_find_index_first(exts.drop_first(), id, i - 1);
    }
}

/// Whether the sequence of names contains the id.
pub open spec fn contains_str(s: Seq<String>, id: Seq<char>) -> bool {
    exists|k: int| 0 <= k < s.len() && s[k]@ == id
}

/// No two names in the sequence are the same text.
pub open spec fn distinct_strs(s: Seq<String>) -> bool {
    forall|i: int, j: int| 0 <= i < j < s.len() ==> s[i]@ != s[j]@
}

/// There is a dependency declared by the first-registered extension with
/// id `a` on an extension with id `b`.
pub open spec fn dep_edge(exts: Seq<ExtensionInfo>, a: Seq<char>, b: Seq<char>) -> bool {
    &&& has_ext(exts, a)
    &&& exists|d: int|
        0 <= d < exts[find_index(exts, a)].dependencies@.len() && (#[trigger] exts[find_index(
            exts,
            a,
        )].dependencies@[d]).unique_id@ == b
}

/// Each id in the sequence declares a dependency on the next.
pub open spec fn is_dep_chain(exts: Seq<ExtensionInfo>, c: Seq<Seq<char>>) -> bool {
    forall|j: int| 0 <= j < c.len() - 1 ==> dep_edge(exts, #[trigger] c[j], c[j + 1])
}

/// Some dependency chain closes on itself.
pub open spec fn has_dependency_cycle(exts: Seq<ExtensionInfo>) -> bool {
    exists|c: Seq<Seq<char>>|
        c.len() >= 2 && (#[trigger] c[0]) == c.last() && is_dep_chain(exts, c)
}

/// Some first-registered extension declares a dependency that no registered
/// extension carries.
pub open spec fn has_missing_dependency(exts: Seq<ExtensionInfo>) -> bool {
    exists|k: int, d: int|
        {
            &&& 0 <= k < exts.len()
            &&& k == find_index(exts, exts[k].unique_id@)
            &&& 0 <= d < exts[k].dependencies@.len()
            &&& !has_ext(exts, (#[trigger] exts[k].dependencies@[d]).unique_id@)
        }
}

/// Some first-registered extension declares a version floor that the
/// registered version of its dependency does not meet.
pub open spec fn has_unsatisfied_dependency(exts: Seq<ExtensionInfo>) -> bool {
    exists|k: int, d: int|
        {
            &&& 0 <= k < exts.len()
            &&& k == find_index(exts, exts[k].unique_id@)
            &&& 0 <= d < exts[k].dependencies@.len()
            &&& has_ext(exts, (#[trigger] exts[k].dependencies@[d]).unique_id@)
            &&& !exts[k].dependencies@[d].version.spec_le(
                exts[find_index(exts, exts[k].dependencies@[d].unique_id@)].version,
            )
        }
}

/// The three conditions under which resolution fails: a missing dependency,
/// an unmet version floor, or a cycle. A registry with none of them always
/// resolves.
pub open spec fn resolution_blocked(exts: Seq<ExtensionInfo>) -> bool {
    has_missing_dependency(exts) || has_unsatisfied_dependency(exts) || has_dependency_cycle(exts)
}

/// The ids on a traversal stack, each declaring a dependency on the next.
pub open spec fn visited_chain(exts: Seq<ExtensionInfo>, v: Seq<String>) -> bool {
    forall|j: int| 0 <= j < v.len() - 1 ==> dep_edge(exts, (#[trigger] v[j])@, v[j + 1]@)
}

/// The dependency at position `d` of the extension registered first under
/// `id` is present in `order`, is itself registered, and its version floor
/// is met by the registered version.
pub open spec fn dep_resolved(
    exts: Seq<ExtensionInfo>,
    order: Seq<String>,
    id: Seq<char>,
    d: int,
) -> bool {
    let dep = exts[find_index(exts, id)].dependencies@[d];
    &&& contains_str(order, dep.unique_id@)
    &&& has_ext(exts, dep.unique_id@)
    &&& dep.version.spec_le(exts[find_index(exts, dep.unique_id@)].version)
}

/// All dependencies of the extension at position `i` of the order are
/// resolved among the entries before position `i`.
pub open spec fn deps_ok_at(exts: Seq<ExtensionInfo>, order: Seq<String>, i: int) -> bool {
    forall|d: int|
        0 <= d < exts[find_index(exts, order[i]@)].dependencies@.len() ==> #[trigger] dep_resolved(
            exts,
            order.take(i),
            order[i]@,
            d,
        )
}

/// A well-formed resolution order: every entry names a registered extension
/// exactly once, and every entry's dependencies appear before it, are
/// registered, and meet their version floors.
pub open spec fn resolved_ok(exts: Seq<ExtensionInfo>, order: Seq<String>) -> bool {
    &&& forall|i: int| 0 <= i < order.len() ==> has_ext(exts, #[trigger] order[i]@)
    &&& distinct_strs(order)
    &&& forall|i: int| 0 <= i < order.len() ==> #[trigger] deps_ok_at(exts, order, i)
}

/// Extending a well-formed order by a fresh registered id whose
/// dependencies are already in the order keeps it well-formed.
proof fn lemma_resolved_ok_push(exts: Seq<ExtensionInfo>, order: Seq<String>, s: String)
    requires
        resolved_ok(exts, order),
        has_ext(exts, s@),
        !contains_str(order, s@),
        forall|d: int|
            0 <= d < exts[find_index(exts, s@)].dependencies@.len() ==> #[trigger] dep_resolved(
                exts,
                order,
                s@,
                d,
            ),
    ensures
        resolved_ok(exts, order.push(s)),
{
    let order2 = order.push(s);
    let n = order.len() as int;
    assert forall|i: int, j: int| 0 <= i < j < order2.len() implies order2[i]@ != order2[j]@ by {
        if j == n {
            assert(order2[i]@ == order[i]@);
        }
    }
    assert forall|i: int| 0 <= i < order2.len() implies #[trigger] deps_ok_at(exts, order2, i) by {
        if i < n {
            assert(order2[i]@ == order[i]@);
            assert(order2.take(i) =~= order.take(i));
            assert(deps_ok_at(exts, order, i));
            assert forall|d: int|
                0 <= d < exts[find_index(exts, order2[i]@)].dependencies@.len() implies #[trigger] dep_resolved(
                exts,
                order2.take(i),
                order2[i]@,
                d,
            ) by {
                assert(dep_resolved(exts, order.take(i), order[i]@, d));
            }
        } else {
            assert(order2[i]@ == s@);
            assert(order2.take(i) =~= order);
            assert forall|d: int|
                0 <= d < exts[find_index(exts, order2[i]@)].dependencies@.len() implies #[trigger] dep_resolved(
                exts,
                order2.take(i),
                order2[i]@,
                d,
            ) by {
                assert(dep_resolved(exts, order, s@, d));
            }
        }
    }
}

/// Names that are pairwise distinct and all registered are no more numerous
/// than the registered extensions.
proof fn lemma_visited_bound(exts: Seq<ExtensionInfo>, visited: Seq<String>)
    requires
        distinct_strs(visited),
        forall|k: int| 0 <= k < visited.len() ==> has_ext(exts, #[trigger] visited[k]@),
    ensures
        visited.len() <= exts.len(),
{
    let idxs = Seq::new(visited.len(), |k: int| find_index(exts, visited[k]@));
    assert forall|a: int, b: int| 0 <= a < b < idxs.len() implies idxs[a] != idxs[b] by {
        lemma_find_index(exts, visited[a]@);
        lemma_find_index(exts, visited[b]@);
    }
    assert(idxs.no_duplicates());
    idxs.unique_seq_to_set();
    assert forall|x: int| idxs.to_set().contains(x) implies set_int_range(
        0,
        exts.len() as int,
    ).contains(x) by {
        let k = choose|k: int| 0 <= k < idxs.len() && idxs[k] == x;
        lemma_find_index(exts, visited[k]@);
    }
    lemma_int_range(0, exts.len() as int);
    lemma_len_subset(idxs.to_set(), set_int_range(0, exts.len() as int));
}

/// An element of a prefix is an element of the whole.
proof fn lemma_contains_prefix(a: Seq<String>, b: Seq<String>, id: Seq<char>)
    requires
        a.is_prefix_of(b),
        contains_str(a, id),
    ensures
        contains_str(b, id),
{
    let k = choose|k: int| 0 <= k < a.len() && a[k]@ == id;
    assert(b[k]@ == id);
}

/// Whether the vector holds the name.
fn vec_contains_str(v: &Vec<String>, id: &String) -> (r: bool)
    ensures
        r == contains_str(v@, id@),
{
    let mut j: usize = 0;
    while j < v.len()
        invariant
            0 <= j <= v@.len(),
            forall|k: int| 0 <= k < j ==> v@[k]@ != id@,
        decreases v@.len() - j,
    {
        if v[j].eq(id) {
            return true;
        }
        j = j + 1;
    }
    false
}

/// Removes one occurrence of the name from the vector.
fn remove_str(v: &mut Vec<String>, id: &String)
    requires
        contains_str(old(v)@, id@),
    ensures
        exists|i: int|
            0 <= i < old(v)@.len() && old(v)@[i]@ == id@ && final(v)@ == old(v)@.remove(i),
{
    let mut j: usize = 0;
    loop
        invariant
            0 <= j <= v@.len(),
            v@ == old(v)@,
            contains_str(v@, id@),
            forall|k: int| 0 <= k < j ==> v@[k]@ != id@,
        decreases v@.len() - j,
    {
        if j >= v.len() {
            proof {
                let k = choose|k: int| 0 <= k < v@.len() && v@[k]@ == id@;
                assert(false);
            }
            return ;
        }
        if v[j].eq(id) {
            v.remove(j);
            return ;
        }
        j = j + 1;
    }
}

/// The dependency resolver: a flat list of registered extensions and a
/// post-order traversal that computes a safe initialization order.
#[derive(Debug, Clone)]
pub struct DependencyResolver {
    pub extensions: Vec<ExtensionInfo>,
}

impl DependencyResolver {
    pub fn new() -> (r: Self)
        ensures
            r.extensions@.len() == 0,
    {
        DependencyResolver { extensions: Vec::new() }
    }

    /// Registers an extension. Entries are never mutated afterwards.
    pub fn add_extension(
        &mut self,
        unique_id: &str,
        version: Version,
        dependencies: Vec<ExtensionDependency>,
    )
        ensures
            final(self).extensions@.len() == old(self).extensions@.len() + 1,
            old(self).extensions@.is_prefix_of(final(self).extensions@),
            final(self).extensions@.last().unique_id@ == unique_id@,
            final(self).extensions@.last().version == version,
            final(self).extensions@.last().dependencies == dependencies,
    {
        self.extensions.push(
            ExtensionInfo { unique_id: unique_id.to_owned(), version, dependencies },
        );
    }

    /// Finds the first registered extension with the id.
    fn find_extension(&self, unique_id: &String) -> (r: Option<usize>)
        ensures
            r matches Some(i) ==> 0 <= i < self.extensions@.len() && i as int == find_index(
                self.extensions@,
                unique_id@,
            ) && self.extensions@[i as int].unique_id@ == unique_id@,
            r is None ==> !has_ext(self.extensions@, unique_id@),
    {
        let mut j: usize = 0;
        while j < self.extensions.len()
            invariant
                0 <= j <= self.extensions@.len(),
                forall|k: int| 0 <= k < j ==> self.extensions@[k].unique_id@ != unique_id@,
            decreases self.extensions@.len() - j,
        {
            if self.extensions[j].unique_id.eq(unique_id) {
                proof {
                    lemma_find_index_first(self.extensions@, unique_id@, j as int);
                }
                return Some(j);
            }
            j = j + 1;
        }
        None
    }

    /// Computes an initialization order over all registered extensions:
    /// every id appears exactly once, dependencies precede dependents, and
    /// every declared version floor is met. An error is reported only when
    /// the registry really has a missing dependency, an unmet floor or a
    /// dependency cycle; in particular a registry whose entries declare no
    /// dependencies always resolves.
    pub fn resolve(&self) -> (r: Result<Vec<String>, String>)
        ensures
            r matches Ok(order) ==> resolved_ok(self.extensions@, order@),
            r matches Ok(order) ==> forall|k: int|
                0 <= k < self.extensions@.len() ==> contains_str(
                    order@,
                    #[trigger] self.extensions@[k].unique_id@,
                ),
            r is Err ==> resolution_blocked(self.extensions@),
            (forall|k: int|
                0 <= k < self.extensions@.len()
                    ==> #[trigger] self.extensions@[k].dependencies@.len() == 0) ==> r is Ok,
    {
        let mut resolved: Vec<String> = Vec::new();
        let mut visited: Vec<String> = Vec::new();
        let mut k: usize = 0;
        while k < self.extensions.len()
            invariant
                0 <= k <= self.extensions@.len(),
                resolved_ok(self.extensions@, resolved@),
                visited@.len() == 0,
                forall|e: int|
                    0 <= e < k ==> contains_str(
                        resolved@,
                        #[trigger] self.extensions@[e].unique_id@,
                    ),
            decreases self.extensions@.len() - k,
        {
            let ghost pre = resolved@;
            let ghost exts = self.extensions@;
            match self.resolve_extension(&self.extensions[k].unique_id, &mut resolved, &mut visited)
             {
                Ok(()) => {},
                Err(e) => {
                    proof {
                        // an entry without dependencies is never refused
                        if forall|j: int|
                            0 <= j < exts.len()
                                ==> #[trigger] exts[j].dependencies@.len() == 0 {
                            let id = exts[k as int].unique_id@;
                            assert(has_ext(exts, id));
                            lemma_find_index(exts, id);
                            assert(exts[find_index(exts, id)].dependencies@.len() == 0);
                            assert(false);
                        }
                    }
                    return Err(e);
                },
            }
            proof {
                assert forall|e: int| 0 <= e < k + 1 implies contains_str(
                    resolved@,
                    #[trigger] exts[e].unique_id@,
                ) by {
                    if e < k {
                        lemma_contains_prefix(pre, resolved@, exts[e].unique_id@);
                    }
                }
            }
            k = k + 1;
        }
        Ok(resolved)
    }

    /// One depth-first visit. `resolved` is the order built so far;
    /// `visited` holds the ids on the current traversal stack, used to
    /// detect cycles. On success the stack is left as it was found, the
    /// order only grows by ids that were not on the stack, and the visited
    /// id is in the order if it is registered.
    fn resolve_extension(
        &self,
        unique_id: &String,
        resolved: &mut Vec<String>,
        visited: &mut Vec<String>,
    ) -> (r: Result<(), String>)
        requires
            resolved_ok(self.extensions@, old(resolved)@),
            distinct_strs(old(visited)@),
            forall|k: int|
                0 <= k < old(visited)@.len() ==> has_ext(
                    self.extensions@,
                    #[trigger] old(visited)@[k]@,
                ),
            visited_chain(self.extensions@, old(visited)@),
            old(visited)@.len() > 0 ==> dep_edge(
                self.extensions@,
                old(visited)@.last()@,
                unique_id@,
            ),
        ensures
            r is Err ==> resolution_blocked(self.extensions@),
            r is Ok ==> {
                &&& final(visited)@ == old(visited)@
                &&& resolved_ok(self.extensions@, final(resolved)@)
                &&& old(resolved)@.is_prefix_of(final(resolved)@)
                &&& (has_ext(self.extensions@, unique_id@) ==> contains_str(
                    final(resolved)@,
                    unique_id@,
                ))
                &&& forall|j: int|
                    old(resolved)@.len() <= j < final(resolved)@.len() ==> !contains_str(
                        old(visited)@,
                        #[trigger] final(resolved)@[j]@,
                    )
            },
            contains_str(old(resolved)@, unique_id@) ==> r is Ok && final(resolved)@ == old(
                resolved,
            )@ && final(visited)@ == old(visited)@,
            !contains_str(old(resolved)@, unique_id@) && !contains_str(old(visited)@, unique_id@)
                && has_ext(self.extensions@, unique_id@) && self.extensions@[find_index(
                self.extensions@,
                unique_id@,
            )].dependencies@.len() == 0 ==> r is Ok,
        decreases self.extensions@.len() - visited@.len(),
    {
        let ghost exts = self.extensions@;
        if vec_contains_str(resolved, unique_id) {
            return Ok(());
        }
        if vec_contains_str(visited, unique_id) {
            proof {
                let v = visited@;
                let ids = Seq::new(v.len(), |j: int| v[j]@);
                let i = choose|i: int| 0 <= i < v.len() && v[i]@ == unique_id@;
                let c = ids.skip(i).push(unique_id@);
                assert(c[0] == unique_id@);
                assert(c.last() == unique_id@);
                assert forall|j: int| 0 <= j < c.len() - 1 implies dep_edge(
                    exts,
                    #[trigger] c[j],
                    c[j + 1],
                ) by {
                    if j < c.len() - 2 {
                        assert(c[j] == v[i + j]@);
                        assert(c[j + 1] == v[i + j + 1]@);
                        assert(dep_edge(exts, v[i + j]@, v[i + j + 1]@));
                    } else {
                        assert(c[j] == v[v.len() - 1]@);
                        assert(c[j + 1] == unique_id@);
                    }
                }
                assert(has_dependency_cycle(exts));
            }
            return Err(
                String::from_str("Circular dependency detected for extension: ").concat(
                    unique_id.as_str(),
                ),
            );
        }
        visited.push(unique_id.clone());
        let ghost vis1 = visited@;
        proof {
            assert(vis1.drop_last() =~= old(visited)@);
            assert forall|j: int| 0 <= j < vis1.len() - 1 implies dep_edge(
                exts,
                (#[trigger] vis1[j])@,
                vis1[j + 1]@,
            ) by {
                if j < vis1.len() - 2 {
                    assert(vis1[j] == old(visited)@[j]);
                    assert(vis1[j + 1] == old(visited)@[j + 1]);
                } else {
                    assert(vis1[j] == old(visited)@[old(visited)@.len() - 1]);
                    assert(vis1[j + 1]@ == unique_id@);
                }
            }
            assert(visited_chain(exts, vis1));
        }
        match self.find_extension(unique_id) {
            Some(idx) => {
                proof {
                    lemma_find_index(exts, unique_id@);
                }
                let ghost pre = resolved@;
                let n_deps = self.extensions[idx].dependencies.len();
                let mut d: usize = 0;
                while d < n_deps
                    invariant
                        exts == self.extensions@,
                        0 <= idx < exts.len(),
                        idx as int == find_index(exts, unique_id@),
                        exts[idx as int].unique_id@ == unique_id@,
                        n_deps == exts[idx as int].dependencies@.len(),
                        0 <= d <= n_deps,
                        resolved_ok(exts, resolved@),
                        pre == old(resolved)@,
                        pre.is_prefix_of(resolved@),
                        visited@ == vis1,
                        vis1.len() == old(visited)@.len() + 1,
                        vis1.drop_last() == old(visited)@,
                        vis1.last()@ == unique_id@,
                        distinct_strs(vis1),
                        forall|k: int| 0 <= k < vis1.len() ==> has_ext(exts, #[trigger] vis1[k]@),
                        visited_chain(exts, vis1),
                        !contains_str(old(visited)@, unique_id@),
                        !contains_str(resolved@, unique_id@),
                        forall|j: int|
                            pre.len() <= j < resolved@.len() ==> !contains_str(
                                vis1,
                                #[trigger] resolved@[j]@,
                            ),
                        forall|e: int|
                            0 <= e < d ==> #[trigger] dep_resolved(exts, resolved@, unique_id@, e),
                    decreases n_deps - d,
                {
                    let dep_version = self.extensions[idx].dependencies[d].version;
                    match self.find_extension(&self.extensions[idx].dependencies[d].unique_id) {
                        Some(dep_idx) => {
                            if !self.extensions[idx].dependencies[d].satisfies(
                                &self.extensions[dep_idx].version,
                            ) {
                                proof {
                                    assert(has_ext(
                                        exts,
                                        exts[idx as int].dependencies@[d as int].unique_id@,
                                    ));
                                    assert(has_unsatisfied_dependency(exts));
                                }
                                return Err(
                                    String::from_str("Dependency version mismatch: ").concat(
                                        unique_id.as_str(),
                                    ).concat(" requires ").concat(
                                        self.extensions[idx].dependencies[d].unique_id.as_str(),
                                    ).concat(" ").concat(dep_version.to_text().as_str()).concat(
                                        ", but found ",
                                    ).concat(self.extensions[dep_idx].version.to_text().as_str()),
                                );
                            }
                            proof {
                                lemma_visited_bound(exts, vis1);
                                assert(vis1.last()@ == unique_id@);
                                assert(exts[find_index(exts, unique_id@)].dependencies@[
                                    d as int].unique_id@ == exts[idx as int].dependencies@[
                                    d as int].unique_id@);
                                assert(dep_edge(
                                    exts,
                                    unique_id@,
                                    exts[idx as int].dependencies@[d as int].unique_id@,
                                ));
                            }
                            let ghost before = resolved@;
                            match self.resolve_extension(
                                &self.extensions[idx].dependencies[d].unique_id,
                                resolved,
                                visited,
                            ) {
                                Ok(()) => {},
                                Err(e) => {
                                    return Err(e);
                                },
                            }
                            proof {
                                let ghost dep = exts[idx as int].dependencies@[d as int];
                                assert(pre.is_prefix_of(resolved@));
                                assert(!contains_str(resolved@, unique_id@)) by {
                                    if contains_str(resolved@, unique_id@) {
                                        let j = choose|j: int|
                                            0 <= j < resolved@.len() && resolved@[j]@ == unique_id@;
                                        if j < before.len() {
                                            assert(before =~= resolved@.subrange(
                                                0,
                                                before.len() as int,
                                            ));
                                            assert(before[j] == resolved@[j]);
                                            assert(contains_str(before, unique_id@));
                                        } else {
                                            assert(!contains_str(vis1, resolved@[j]@));
                                            assert(vis1[vis1.len() - 1]@ == unique_id@);
                                        }
                                    }
                                };
                                assert forall|j: int|
                                    pre.len() <= j < resolved@.len() implies !contains_str(
                                    vis1,
                                    #[trigger] resolved@[j]@,
                                ) by {
                                    if j < before.len() {
                                        assert(resolved@[j] == before[j]);
                                    }
                                }
                                assert forall|e: int| 0 <= e < d + 1 implies #[trigger] dep_resolved(
                                    exts,
                                    resolved@,
                                    unique_id@,
                                    e,
                                ) by {
                                    if e < d {
                                        assert(dep_resolved(exts, before, unique_id@, e));
                                        lemma_contains_prefix(
                                            before,
                                            resolved@,
                                            exts[idx as int].dependencies@[e].unique_id@,
                                        );
                                    } else {
                                        assert(has_ext(exts, dep.unique_id@));
                                        assert(contains_str(resolved@, dep.unique_id@));
                                        lemma_find_index(exts, dep.unique_id@);
                                    }
                                }
                            }
                        },
                        None => {
                            proof {
                                assert(exts[idx as int].unique_id@ == unique_id@);
                                assert(!has_ext(
                                    exts,
                                    exts[idx as int].dependencies@[d as int].unique_id@,
                                ));
                                assert(has_missing_dependency(exts));
                            }
                            return Err(
                                String::from_str("Missing dependency: ").concat(
                                    unique_id.as_str(),
                                ).concat(" requires ").concat(
                                    self.extensions[idx].dependencies[d].unique_id.as_str(),
                                ),
                            );
                        },
                    }
                    d = d + 1;
                }
                let ghost before_push = resolved@;
                resolved.push(unique_id.clone());
                proof {
                    assert(resolved@.drop_last() =~= before_push);
                    assert(resolved@.last()@ == unique_id@);
                    assert forall|e: int|
                        0 <= e < exts[find_index(exts, resolved@.last()@)].dependencies@.len() implies #[trigger] dep_resolved(
                        exts,
                        before_push,
                        resolved@.last()@,
                        e,
                    ) by {
                        assert(dep_resolved(exts, before_push, unique_id@, e));
                    }
                    lemma_resolved_ok_push(exts, before_push, resolved@.last());
                    assert(resolved@ =~= before_push.push(resolved@.last()));
                    assert(pre.is_prefix_of(resolved@));
                }
            },
            None => {},
        }
        proof {
            assert(vis1[vis1.len() - 1]@ == unique_id@);
            assert(contains_str(visited@, unique_id@));
        }
        remove_str(visited, unique_id);
        proof {
            let i = choose|i: int|
                0 <= i < vis1.len() && vis1[i]@ == unique_id@ && final(visited)@ == vis1.remove(i);
            assert(i == vis1.len() - 1) by {
                if i < vis1.len() - 1 {
                    assert(vis1[i] == old(visited)@[i]);
                    assert(contains_str(old(visited)@, unique_id@));
                }
            };
            assert(final(visited)@ =~= old(visited)@);
        }
        Ok(())
    }
}

impl Default for DependencyResolver {
    fn default() -> (r: Self)
        ensures
            r.extensions@.len() == 0,
    {
        DependencyResolver::new()
    }
}

} // verus!
