//! Parts of file paths whose components are separated by `/`.

use crate::text::{chars_of, owned, same, string_of};
use vstd::prelude::*;

verus! {

/// Where the last component starts: behind the last `/` among the first `n`
/// characters, or at the beginning.
pub open spec fn tail_start(path: Seq<char>, n: nat) -> nat
    decreases n,
{
    if n == 0 || n > path.len() {
        0
    } else if path[n - 1] == '/' {
        n
    } else {
        tail_start(path, (n - 1) as nat)
    }
}

/// The characters behind the last `/`.
pub open spec fn tail(path: Seq<char>) -> Seq<char> {
    path.skip(tail_start(path, path.len()) as int)
}

/// The characters before the last `/`; nothing where there is no `/`.
pub open spec fn head(path: Seq<char>) -> Seq<char> {
    let k = tail_start(path, path.len());
    if k == 0 {
        Seq::empty()
    } else {
        path.take(k - 1)
    }
}

/// The last component of a path. Empty components and `.` do not count; a path that
/// ends in `..`, or has no component, has no name.
pub open spec fn name_of(path: Seq<char>) -> Option<Seq<char>>
    decreases path.len(),
{
    if path.len() == 0 {
        None
    } else {
        let t = tail(path);
        if t.len() == 0 || t == "."@ {
            proof {
                lemma_tail_start(path, path.len());
            }
            name_of(head(path))
        } else if t == ".."@ {
            None
        } else {
            Some(t)
        }
    }
}

/// The last component starts within the path.
pub proof fn lemma_tail_start(path: Seq<char>, n: nat)
    requires
        n <= path.len(),
    ensures
        tail_start(path, n) <= n,
    decreases n,
{
    if n > 0 && path[n - 1] != '/' {
        lemma_tail_start(path, (n - 1) as nat);
    }
}

fn find_tail(chars: &Vec<char>, n: usize) -> (r: usize)
    requires
        n <= chars@.len(),
    ensures
        r == tail_start(chars@.take(n as int), n as nat),
        r <= n,
{
    let ghost part = chars@.take(n as int);
    let mut k: usize = n;
    while k > 0 && chars[k - 1] != '/'
        invariant
            part == chars@.take(n as int),
            k <= n <= chars@.len(),
            tail_start(part, k as nat) == tail_start(part, n as nat),
        decreases k,
    {
        k -= 1;
    }
    k
}

/// The last component of a path, as `std::path::Path::file_name` has it on a system
/// whose separator is `/`.
pub fn file_name(path: &str) -> (r: Option<String>)
    ensures
        match r {
            Some(name) => name_of(path@) == Some(name@),
            None => name_of(path@) is None,
        },
{
    let chars = chars_of(path);
    let mut n: usize = chars.len();
    proof {
        assert(path@.take(n as int) =~= path@);
    }
    while n > 0
        invariant
            chars@ == path@,
            n <= chars@.len(),
            name_of(path@.take(n as int)) == name_of(path@),
        decreases n,
    {
        let ghost part = path@.take(n as int);
        let k: usize = find_tail(&chars, n);
        let t = string_of(&chars, k, n);
        proof {
            assert(path@.subrange(k as int, n as int) =~= tail(part));
        }
        if t.as_str().is_empty() || same(t.as_str(), ".") {
            proof {
                if k > 0 {
                    assert(head(part) =~= path@.take(k - 1));
                } else {
                    assert(head(part) =~= path@.take(0));
                }
            }
            n = if k == 0 { 0 } else { k - 1 };
        } else if same(t.as_str(), "..") {
            return None;
        } else {
            return Some(t);
        }
    }
    proof {
        assert(path@.take(0).len() == 0);
    }
    None
}

/// The name of a path in words: its last component, or nothing.
pub open spec fn name_or_empty(path: Seq<char>) -> Seq<char> {
    match name_of(path) {
        Some(name) => name,
        None => Seq::empty(),
    }
}

/// The last component of a path, or nothing.
pub fn file_name_or_empty(path: &str) -> (r: String)
    ensures
        r@ == name_or_empty(path@),
{
    match file_name(path) {
        Some(name) => name,
        None => String::new(),
    }
}

/// The last component of a path, or the whole path where it has no name.
pub open spec fn name_or_path(path: Seq<char>) -> Seq<char> {
    match name_of(path) {
        Some(name) => name,
        None => path,
    }
}

/// The last component of a path, or the whole path where it has no name.
pub fn file_name_or_path(path: &str) -> (r: String)
    ensures
        r@ == name_or_path(path@),
{
    match file_name(path) {
        Some(name) => name,
        None => owned(path),
    }
}

/// `path` without the separators and `.` components at its end; a leading `/` or `.`
/// stays.
pub open spec fn body(path: Seq<char>) -> Seq<char>
    decreases path.len(),
{
    let k = tail_start(path, path.len());
    if path.len() == 0 || k == 0 {
        path
    } else if tail(path).len() == 0 || tail(path) == "."@ {
        if k == 1 {
            path.take(1)
        } else {
            proof {
                lemma_tail_start(path, path.len());
            }
            body(path.take(k - 1))
        }
    } else {
        path
    }
}

/// The path without its last component; `None` for the root and the empty path.
pub open spec fn parent_of(path: Seq<char>) -> Option<Seq<char>> {
    let b = body(path);
    if b.len() == 0 || b == "/"@ {
        None
    } else {
        let k = tail_start(b, b.len());
        if k <= 1 {
            Some(b.take(k as int))
        } else {
            Some(body(b.take(k - 1)))
        }
    }
}

/// Where the body of the first `n` characters ends.
fn body_end(chars: &Vec<char>, n: usize) -> (r: usize)
    requires
        n <= chars@.len(),
    ensures
        r <= n,
        body(chars@.take(n as int)) == chars@.take(r as int),
    decreases n,
{
    let ghost part = chars@.take(n as int);
    let k: usize = find_tail(chars, n);
    if n == 0 || k == 0 {
        return n;
    }
    let t = string_of(chars, k, n);
    proof {
        assert(chars@.subrange(k as int, n as int) =~= tail(part));
    }
    if t.as_str().is_empty() || same(t.as_str(), ".") {
        if k == 1 {
            proof {
                assert(part.take(1) =~= chars@.take(1));
            }
            1
        } else {
            proof {
                assert(part.take(k - 1) =~= chars@.take(k - 1));
            }
            body_end(chars, k - 1)
        }
    } else {
        n
    }
}

/// The path without its last component, as `std::path::Path::parent` has it on a
/// system whose separator is `/`.
pub fn parent(path: &str) -> (r: Option<String>)
    ensures
        match r {
            Some(dir) => parent_of(path@) == Some(dir@),
            None => parent_of(path@) is None,
        },
{
    let chars = chars_of(path);
    let whole: usize = chars.len();
    let n: usize = body_end(&chars, whole);
    proof {
        assert(chars@.take(whole as int) =~= path@);
        reveal_strlit("/");
    }
    let ghost b = body(path@);
    if n == 0 {
        return None;
    }
    if n == 1 && chars[0] == '/' {
        proof {
            assert(b =~= "/"@);
        }
        return None;
    }
    proof {
        assert(b != "/"@) by {
            if b == "/"@ {
                assert(b.len() == 1);
                assert(b[0] == '/');
            }
        }
    }
    let k: usize = find_tail(&chars, n);
    if k <= 1 {
        let dir = string_of(&chars, 0, k);
        proof {
            assert(dir@ =~= b.take(k as int));
        }
        Some(dir)
    } else {
        let end: usize = body_end(&chars, k - 1);
        let dir = string_of(&chars, 0, end);
        proof {
            assert(b.take(k - 1) =~= chars@.take(k - 1));
            assert(dir@ =~= chars@.take(end as int));
        }
        Some(dir)
    }
}

/// The place of the last `.` among the first `n` characters.
pub open spec fn last_dot(name: Seq<char>, n: nat) -> Option<int>
    decreases n,
{
    if n == 0 || n > name.len() {
        None
    } else if name[n - 1] == '.' {
        Some(n - 1)
    } else {
        last_dot(name, (n - 1) as nat)
    }
}

/// The name without its extension. A `.` at the beginning starts no extension.
pub open spec fn stem_of(name: Seq<char>) -> Seq<char> {
    match last_dot(name, name.len()) {
        Some(dot) if dot > 0 => name.take(dot),
        _ => name,
    }
}

/// The extension of a name, without the `.`.
pub open spec fn extension_of(name: Seq<char>) -> Option<Seq<char>> {
    match last_dot(name, name.len()) {
        Some(dot) if dot > 0 => Some(name.skip(dot + 1)),
        _ => None,
    }
}

fn find_dot(chars: &Vec<char>) -> (r: Option<usize>)
    ensures
        match r {
            Some(dot) => last_dot(chars@, chars@.len()) == Some(dot as int) && dot < chars@.len(),
            None => last_dot(chars@, chars@.len()) is None,
        },
{
    let mut k: usize = chars.len();
    while k > 0
        invariant
            k <= chars@.len(),
            last_dot(chars@, k as nat) == last_dot(chars@, chars@.len()),
        decreases k,
    {
        if chars[k - 1] == '.' {
            return Some(k - 1);
        }
        k -= 1;
    }
    None
}

/// The name of a path without its extension, or nothing, as
/// `std::path::Path::file_stem` has it.
pub fn file_stem_or_empty(path: &str) -> (r: String)
    ensures
        r@ == stem_of(name_or_empty(path@)),
{
    let name = file_name_or_empty(path);
    let chars = chars_of(name.as_str());
    match find_dot(&chars) {
        Some(dot) if dot > 0 => {
            let stem = string_of(&chars, 0, dot);
            proof {
                assert(stem@ =~= name@.take(dot as int));
            }
            stem
        },
        _ => name,
    }
}

/// The extension of a path, as `std::path::Path::extension` has it.
pub fn extension(path: &str) -> (r: Option<String>)
    ensures
        match r {
            Some(ext) => extension_of(name_or_empty(path@)) == Some(ext@),
            None => extension_of(name_or_empty(path@)) is None,
        },
{
    let name = file_name_or_empty(path);
    let chars = chars_of(name.as_str());
    let total: usize = chars.len();
    match find_dot(&chars) {
        Some(dot) if dot > 0 => {
            let ext = string_of(&chars, dot + 1, total);
            proof {
                assert(ext@ =~= name@.skip(dot + 1));
            }
            Some(ext)
        },
        _ => None,
    }
}

} // verus!
