//! Discovery of watchable files and dynamic registration of new watch
//! targets.
//!
//! At startup the surrounding program walks the source tree and hands
//! every path it finds to the logic here, which keeps exactly those with
//! the primary-source extension. At runtime a new base name can be
//! registered: the target path is derived from it by replacing any
//! extension with the primary-source one, and a new watcher is spawned
//! only when the derived path is a regular file and is not watched
//! already — the registry guarantees at most one watcher per distinct
//! path.

use vstd::prelude::*;

use crate::events::{copy_bytes, copy_prefix};

verus! {

/// The index of the last occurrence of `b` in `s`, or -1 if `b` does
/// not occur.
pub open spec fn spec_last_index_of(s: Seq<u8>, b: u8) -> int
    decreases s.len(),
{
    if s.len() == 0 {
        -1
    } else if s.last() == b {
        s.len() - 1
    } else {
        spec_last_index_of(s.drop_last(), b)
    }
}

/// Where the file name of a path begins: right after the last path
/// separator, or at the start when there is none.
pub open spec fn spec_fname_start(s: Seq<u8>) -> int {
    spec_last_index_of(s, 47u8) + 1
}

/// Whether the path's file name has an extension: a dot strictly after
/// the first byte of the file name, so that the stem is not empty.
pub open spec fn spec_has_extension(s: Seq<u8>) -> bool {
    spec_last_index_of(s, 46u8) > spec_fname_start(s)
}

/// The extension of the path: everything after the last dot. Meaningful
/// only when `spec_has_extension` holds.
pub open spec fn spec_extension(s: Seq<u8>) -> Seq<u8> {
    s.skip(spec_last_index_of(s, 46u8) + 1)
}

/// Whether a path names a primary-source file: its extension is `tex`.
pub open spec fn spec_is_tex_path(s: Seq<u8>) -> bool {
    spec_has_extension(s) && spec_extension(s) == seq![116u8, 101u8, 120u8]
}

/// The path derived from a registered base name: any extension is
/// replaced by the primary-source one, which is appended otherwise.
pub open spec fn spec_derive_tex_name(s: Seq<u8>) -> Seq<u8> {
    let stem = if spec_has_extension(s) {
        s.take(spec_last_index_of(s, 46u8))
    } else {
        s
    };
    stem + seq![46u8, 116u8, 101u8, 120u8]
}

/// The index of the last occurrence of `b`, if any.
fn last_index_of(v: &Vec<u8>, b: u8) -> (r: Option<usize>)
    ensures
        match r {
            Some(i) => spec_last_index_of(v@, b) == i as int && i < v@.len(),
            None => spec_last_index_of(v@, b) == -1,
        },
{
    let mut i = v.len();
    proof {
        assert(v@.take(v@.len() as int) =~= v@);
    }
    while i > 0
        invariant
            i <= v@.len(),
            spec_last_index_of(v@, b) == spec_last_index_of(v@.take(i as int), b),
        decreases i,
    {
        proof {
            assert(v@.take(i as int).drop_last() =~= v@.take(i as int - 1));
            assert(v@.take(i as int).last() == v@[i as int - 1]);
        }
        if v[i - 1] == b {
            return Some(i - 1);
        }
        i = i - 1;
    }
    None
}

/// Whether a path names a primary-source file.
pub fn has_tex_extension(path: &Vec<u8>) -> (r: bool)
    ensures
        r == spec_is_tex_path(path@),
{
    let n = path.len();
    let dot = last_index_of(path, 46u8);
    let slash = last_index_of(path, 47u8);
    let d = match dot {
        None => {
            return false;
        },
        Some(d) => d,
    };
    let fs: usize = match slash {
        None => 0,
        Some(sl) => sl + 1,
    };
    if d <= fs {
        return false;
    }
    if path.len() - (d + 1) != 3 {
        proof {
            assert(spec_extension(path@).len() != 3);
        }
        return false;
    }
    let r = path[d + 1] == 116u8 && path[d + 2] == 101u8 && path[d + 3] == 120u8;
    proof {
        let ext = spec_extension(path@);
        assert(ext.len() == 3);
        assert(ext[0] == path@[d + 1] && ext[1] == path@[d + 2] && ext[2] == path@[d + 3]);
        if r {
            assert(ext =~= seq![116u8, 101u8, 120u8]);
        }
    }
    r
}

/// Derives the watch-target path for a registered base name.
pub fn derive_tex_name(base: &Vec<u8>) -> (r: Vec<u8>)
    ensures
        r@ == spec_derive_tex_name(base@),
{
    let n = base.len();
    let dot = last_index_of(base, 46u8);
    let slash = last_index_of(base, 47u8);
    let stem_len: Option<usize> = match dot {
        None => None,
        Some(d) => {
            let fs: usize = match slash {
                None => 0,
                Some(sl) => sl + 1,
            };
            if d > fs {
                Some(d)
            } else {
                None
            }
        },
    };
    let mut r = match stem_len {
        Some(d) => copy_prefix(base, d),
        None => copy_bytes(base),
    };
    r.push(46u8);
    r.push(116u8);
    r.push(101u8);
    r.push(120u8);
    proof {
        assert(r@ =~= spec_derive_tex_name(base@));
    }
    r
}

/// Whether two byte strings hold the same bytes.
pub fn bytes_eq(a: &Vec<u8>, b: &Vec<u8>) -> (r: bool)
    ensures
        r == (a@ == b@),
{
    if a.len() != b.len() {
        return false;
    }
    let mut i: usize = 0;
    while i < a.len()
        invariant
            i <= a@.len(),
            a@.len() == b@.len(),
            forall|k: int| 0 <= k < i ==> a@[k] == b@[k],
        decreases a@.len() - i,
    {
        if a[i] != b[i] {
            return false;
        }
        i = i + 1;
    }
    proof {
        assert(a@ =~= b@);
    }
    true
}

/// The set of watched paths. At most one watcher exists per distinct
/// path: registering a path that is already present is refused, so the
/// well-formedness invariant below is preserved by every operation.
pub struct WatcherRegistry {
    paths: Vec<Vec<u8>>,
}

impl View for WatcherRegistry {
    type V = Seq<Seq<u8>>;

    closed spec fn view(&self) -> Seq<Seq<u8>> {
        self.paths.deep_view()
    }
}

impl WatcherRegistry {
    /// No path is watched twice.
    pub open spec fn wf(&self) -> bool {
        forall|i: int, j: int| 0 <= i < j < self@.len() ==> self@[i] != self@[j]
    }

    /// An empty registry.
    pub fn new() -> (r: WatcherRegistry)
        ensures
            r@ == Seq::<Seq<u8>>::empty(),
            r.wf(),
    {
        let r = WatcherRegistry { paths: Vec::new() };
        proof {
            assert(r@ =~= Seq::<Seq<u8>>::empty());
        }
        r
    }

    /// How many paths are watched.
    pub fn len(&self) -> (n: usize)
        ensures
            n == self@.len(),
    {
        self.paths.len()
    }

    /// Whether the path is already watched.
    pub fn contains_path(&self, path: &Vec<u8>) -> (r: bool)
        ensures
            r == self@.contains(path@),
    {
        let mut i: usize = 0;
        while i < self.paths.len()
            invariant
                i <= self@.len(),
                self@.len() == self.paths@.len(),
                self@ == self.paths.deep_view(),
                forall|k: int| 0 <= k < i ==> self@[k] != path@,
            decreases self@.len() - i,
        {
            proof {
                assert(self@[i as int] == self.paths@[i as int].deep_view());
                assert(self.paths@[i as int].deep_view() =~= self.paths@[i as int]@);
            }
            if bytes_eq(&self.paths[i], path) {
                proof {
                    assert(self@[i as int] == path@);
                }
                return true;
            }
            i = i + 1;
        }
        proof {
            if self@.contains(path@) {
                let k = choose|k: int| 0 <= k < self@.len() && self@[k] == path@;
                assert(self@[k] != path@);
            }
        }
        false
    }

    /// Registers a path. Succeeds, and then appends the path to the
    /// watched set, exactly when the path was not watched before.
    pub fn register(&mut self, path: Vec<u8>) -> (r: bool)
        ensures
            r == !old(self)@.contains(path@),
            r ==> final(self)@ == old(self)@.push(path@),
            !r ==> final(self)@ == old(self)@,
            old(self).wf() ==> final(self).wf(),
    {
        if self.contains_path(&path) {
            false
        } else {
            let ghost pre = self@;
            proof {
                assert forall|k: int| 0 <= k < pre.len() implies pre[k] != path@ by {
                    if pre[k] == path@ {
                        assert(pre.contains(path@));
                    }
                }
            }
            self.paths.push(path);
            proof {
                assert(self@ =~~= pre.push(self.paths@.last()@));
            }
            true
        }
    }
}

/// What became of a dynamic registration request.
#[derive(Clone, Copy, PartialEq, Eq, Structural, Debug)]
pub enum RegisterOutcome {
    /// The derived path is a fresh regular file: spawn a watcher for it.
    Spawn,
    /// The derived path is already watched: nothing to do.
    AlreadyWatched,
    /// The derived path is not a regular file: warn, take no action.
    NotAFile,
}

/// The decision taken for a dynamically registered target path, after
/// the surrounding program has created the file if it was missing and
/// reported whether the path now names a regular file. A watcher is
/// spawned exactly when the path is a regular file that is not watched
/// yet.
pub fn decide_registration(registry: &mut WatcherRegistry, path: &Vec<u8>, is_file: bool) -> (r:
    RegisterOutcome)
    ensures
        (r == RegisterOutcome::Spawn) <==> (is_file && !old(registry)@.contains(path@)),
        (r == RegisterOutcome::AlreadyWatched) <==> (is_file && old(registry)@.contains(path@)),
        (r == RegisterOutcome::NotAFile) <==> !is_file,
        r == RegisterOutcome::Spawn ==> final(registry)@ == old(registry)@.push(path@),
        r != RegisterOutcome::Spawn ==> final(registry)@ == old(registry)@,
        old(registry).wf() ==> final(registry).wf(),
{
    if !is_file {
        RegisterOutcome::NotAFile
    } else if registry.register(copy_bytes(path)) {
        RegisterOutcome::Spawn
    } else {
        RegisterOutcome::AlreadyWatched
    }
}

} // verus!
