//! The storage roots and the paths below them.

use vstd::prelude::*;
use vstd::utf8::{decode_utf8_encode_utf8, encode_utf8};

use crate::capi::strings::{bytes_opt, c_input, cstr_input, filled, holds_text, law_text_reads_as_written};
use crate::errname::{EspErr, ESP_ERR_INVALID_ARG, ESP_ERR_INVALID_SIZE, ESP_ERR_INVALID_STATE, ESP_OK};
use crate::text::opt_str_view;

verus! {

/// The root for data.
pub const CLAW_PATH_DATA: i32 = 0;

/// The root for the system.
pub const CLAW_PATH_SYSTEM: i32 = 1;

/// How many roots there are.
pub const ROOT_MAX: usize = 2;

/// The size of a root's path with its terminator.
pub const ROOT_PATH_SIZE: usize = 32;

/// The paths of the roots.
pub struct PathRoots {
    data: Option<String>,
    system: Option<String>,
}

/// Whether a number stands for a root.
pub open spec fn is_root(root: i32) -> bool {
    0 <= root < ROOT_MAX
}

fn root_index(root: i32) -> (r: Option<usize>)
    ensures
        match r {
            Some(i) => is_root(root) && i == root,
            None => !is_root(root),
        },
{
    if root >= 0 && root < 2 {
        Some(root as usize)
    } else {
        None
    }
}

impl PathRoots {
    #[verifier::type_invariant]
    spec fn inv(self) -> bool {
        &&& self.data matches Some(s) ==> encode_utf8(s@).len() < ROOT_PATH_SIZE
        &&& self.system matches Some(s) ==> encode_utf8(s@).len() < ROOT_PATH_SIZE
    }

    /// The path of a root, where it is set.
    pub closed spec fn path_of(self, root: int) -> Option<Seq<char>> {
        if root == 0 {
            match self.data {
                Some(s) => Some(s@),
                None => None,
            }
        } else if root == 1 {
            match self.system {
                Some(s) => Some(s@),
                None => None,
            }
        } else {
            None
        }
    }

    /// No root set.
    pub fn new() -> (r: PathRoots)
        ensures
            forall|root: int| (#[trigger] r.path_of(root)) is None,
    {
        PathRoots { data: None, system: None }
    }

    /// The path of a root, nothing where it is not set or there is no such root.
    pub fn get(&self, root: i32) -> (r: Option<&str>)
        ensures
            opt_str_view(r) == self.path_of(root as int),
            r matches Some(s) ==> encode_utf8(s@).len() < ROOT_PATH_SIZE,
    {
        proof {
            use_type_invariant(self);
        }
        match root_index(root) {
            Some(i) => {
                let slot = if i == 0 {
                    &self.data
                } else {
                    &self.system
                };
                match slot {
                    Some(s) => Some(s.as_str()),
                    None => None,
                }
            },
            None => None,
        }
    }
}

/// What setting a root's path answers.
pub open spec fn set_code(root: i32, path: Option<Vec<u8>>) -> int {
    if !is_root(root) || c_input(path) is None || path.unwrap()@.len() == 0 {
        ESP_ERR_INVALID_ARG as int
    } else if path.unwrap()@.len() >= ROOT_PATH_SIZE {
        ESP_ERR_INVALID_SIZE as int
    } else {
        ESP_OK as int
    }
}

/// Sets the path of a root: text that is not empty and shorter than the root's storage.
pub fn claw_paths_set(roots: &mut PathRoots, root: i32, path: &Option<Vec<u8>>) -> (r: EspErr)
    ensures
        r == set_code(root, *path),
        r != ESP_OK ==> forall|i: int| #[trigger] final(roots).path_of(i) == old(roots).path_of(i),
        r == ESP_OK ==> {
            &&& final(roots).path_of(root as int) == c_input(*path)
            &&& forall|i: int| i != root ==> #[trigger] final(roots).path_of(i) == old(roots).path_of(i)
        },
{
    let index: usize = match root_index(root) {
        Some(i) => i,
        None => {
            return ESP_ERR_INVALID_ARG;
        },
    };
    let text = match cstr_input(path) {
        Some(t) => t,
        None => {
            return ESP_ERR_INVALID_ARG;
        },
    };
    let len: usize = match path {
        Some(b) => b.len(),
        None => 0,
    };
    proof {
        use_type_invariant(&*roots);
        decode_utf8_encode_utf8(path.unwrap()@);
    }
    if len == 0 {
        return ESP_ERR_INVALID_ARG;
    }
    if len >= ROOT_PATH_SIZE {
        return ESP_ERR_INVALID_SIZE;
    }
    if index == 0 {
        roots.data = Some(text);
    } else {
        roots.system = Some(text);
    }
    ESP_OK
}

/// The path of a root, nothing where it is not set or there is no such root.
pub fn claw_paths_get(roots: &PathRoots, root: i32) -> (r: Option<&str>)
    ensures
        opt_str_view(r) == roots.path_of(root as int),
{
    roots.get(root)
}

/// A path below a root: the root's path, and the rest behind a slash where there is any.
pub open spec fn joined_path(base: Seq<char>, sub: Option<Seq<u8>>) -> Seq<u8> {
    match sub {
        Some(s) => if s.len() > 0 {
            encode_utf8(base) + seq![47u8] + s
        } else {
            encode_utf8(base)
        },
        None => encode_utf8(base),
    }
}

/// What joining a path answers, given the root's path and the size of the buffer.
pub open spec fn join_code(base: Option<Seq<char>>, sub: Option<Seq<u8>>, size: nat) -> int {
    match base {
        None => ESP_ERR_INVALID_STATE as int,
        Some(b) => if size == 0 {
            ESP_ERR_INVALID_ARG as int
        } else if joined_path(b, sub).len() >= size {
            ESP_ERR_INVALID_SIZE as int
        } else {
            ESP_OK as int
        },
    }
}

fn push_all(out: &mut Vec<u8>, bytes: &[u8])
    ensures
        final(out)@ == old(out)@ + bytes@,
{
    let mut i: usize = 0;
    while i < bytes.len()
        invariant
            i <= bytes@.len(),
            out@ == old(out)@ + bytes@.take(i as int),
        decreases bytes@.len() - i,
    {
        out.push(bytes[i]);
        i = i + 1;
        assert(out@ =~= old(out)@ + bytes@.take(i as int));
    }
    assert(bytes@.take(bytes@.len() as int) =~= bytes@);
}

/// Writes the path below a root into a buffer. It fits with its terminator, or
/// nothing is written.
pub fn claw_paths_join(roots: &PathRoots, root: i32, subpath: &Option<Vec<u8>>, out: &mut Vec<u8>) -> (r: EspErr)
    ensures
        r == join_code(roots.path_of(root as int), bytes_opt(*subpath), old(out)@.len()),
        r != ESP_OK ==> final(out)@ == old(out)@,
        r == ESP_OK ==> final(out)@ == filled(
            old(out)@,
            joined_path(roots.path_of(root as int).unwrap(), bytes_opt(*subpath)),
        ),
{
    let base = match roots.get(root) {
        Some(b) => b,
        None => {
            return ESP_ERR_INVALID_STATE;
        },
    };
    if out.len() == 0 {
        return ESP_ERR_INVALID_ARG;
    }
    let mut path: Vec<u8> = Vec::new();
    push_all(&mut path, base.as_bytes());
    assert(path@ =~= encode_utf8(base@));
    match subpath {
        Some(sub) => {
            if sub.len() >= out.len() {
                return ESP_ERR_INVALID_SIZE;
            }
            if sub.len() > 0 {
                path.push(47);
                push_all(&mut path, sub.as_slice());
            }
        },
        None => {},
    }
    assert(path@ =~= joined_path(base@, bytes_opt(*subpath)));
    if path.len() >= out.len() {
        return ESP_ERR_INVALID_SIZE;
    }
    let mut i: usize = 0;
    while i < path.len()
        invariant
            i <= path@.len(),
            path@.len() < out@.len(),
            out@.len() == old(out)@.len(),
            forall|j: int| 0 <= j < i ==> out@[j] == path@[j],
            forall|j: int| i <= j < out@.len() ==> out@[j] == old(out)@[j],
        decreases path@.len() - i,
    {
        out.set(i, path[i]);
        i = i + 1;
    }
    out.set(i, 0);
    assert(out@ =~= filled(old(out)@, path@));
    ESP_OK
}

/// A root can be set to a path that is a text, is not empty and fits, and what keeps it
/// from being set is said.
pub proof fn law_root_takes_a_path_that_fits(root: i32, path: Option<Vec<u8>>, text: Seq<char>)
    ensures
        root != CLAW_PATH_DATA && root != CLAW_PATH_SYSTEM ==> set_code(root, path) == ESP_ERR_INVALID_ARG,
        path is None ==> set_code(root, path) == ESP_ERR_INVALID_ARG,
        (root == CLAW_PATH_DATA || root == CLAW_PATH_SYSTEM) && holds_text(path, text) ==> {
            &&& path->Some_0@.len() == 0 ==> set_code(root, path) == ESP_ERR_INVALID_ARG
            &&& path->Some_0@.len() >= ROOT_PATH_SIZE ==> set_code(root, path) == ESP_ERR_INVALID_SIZE
            &&& 0 < path->Some_0@.len() < ROOT_PATH_SIZE ==> set_code(root, path) == ESP_OK
        },
{
    law_text_reads_as_written(path, text);
}

/// A path below a root is the root's path, a slash and what is below, and the root's path
/// alone where nothing is below.
pub proof fn law_path_is_below_its_root(base: Seq<char>, sub: Option<Seq<u8>>)
    ensures
        sub is None || sub->Some_0.len() == 0 ==> joined_path(base, sub) == encode_utf8(base),
        sub is Some && sub->Some_0.len() > 0 ==> {
            let path = joined_path(base, sub);
            let n = encode_utf8(base).len();
            &&& path.len() == n + 1 + sub->Some_0.len()
            &&& encode_utf8(base).is_prefix_of(path)
            &&& path[n as int] == 47
            &&& path.skip((n + 1) as int) == sub->Some_0
        },
{
    if sub is Some && sub->Some_0.len() > 0 {
        assert(joined_path(base, sub).skip((encode_utf8(base).len() + 1) as int) =~= sub->Some_0);
    }
}

/// A path is joined where its root is set and the whole of it fits with its end; what
/// keeps it from being joined is said.
pub proof fn law_path_is_joined_where_it_fits(base: Option<Seq<char>>, sub: Option<Seq<u8>>, size: nat)
    ensures
        base is None ==> join_code(base, sub, size) == ESP_ERR_INVALID_STATE,
        base is Some && size == 0 ==> join_code(base, sub, size) == ESP_ERR_INVALID_ARG,
        base is Some && size > 0 ==> (join_code(base, sub, size) == ESP_OK <==> joined_path(base->Some_0, sub).len()
            < size),
        base is Some && size > 0 && joined_path(base->Some_0, sub).len() >= size ==> join_code(base, sub, size)
            == ESP_ERR_INVALID_SIZE,
{
}

/// The roots for data and for the system are the only ones, and a path fits one where it
/// takes fewer than 32 bytes.
pub proof fn law_there_are_two_roots(root: i32)
    ensures
        is_root(root) <==> root == 0 || root == 1,
        CLAW_PATH_DATA == 0,
        CLAW_PATH_SYSTEM == 1,
        ROOT_PATH_SIZE == 32,
{
}

} // verus!
