//! Buttons, paths and areas.

use crate::button_map::{latest_rect, topmost, Hit, TuiButton};
use crate::geometry::{centered, inside_border, share, Rect};
use crate::path::{
    body, extension_of, head, last_dot, name_of, parent_of, stem_of, tail, tail_start,
};
use crate::path_order::{before, components, text_before, ComponentV};
use vstd::prelude::*;

verus! {

/// A click goes to the button recorded last among those that hold the cell, and to none exactly
/// if none holds it.
pub proof fn click_goes_to_the_last_button_there(hits: Seq<Hit>, x: int, y: int, n: nat) -> (i: int)
    requires
        n <= hits.len(),
    ensures
        topmost(hits, x, y, n) matches Some(button) ==> 0 <= i < n && hits[i].0 == button
            && hits[i].1.x <= x < hits[i].1.x + hits[i].1.width && hits[i].1.y <= y < hits[i].1.y
            + hits[i].1.height && forall|j: int|
            i < j < n ==> !(#[trigger] hits[j]).1.holds(x, y),
        topmost(hits, x, y, n) is None ==> forall|j: int|
            0 <= j < n ==> !((#[trigger] hits[j]).1.x <= x < hits[j].1.x + hits[j].1.width
                && hits[j].1.y <= y < hits[j].1.y + hits[j].1.height),
    decreases n,
{
    if n == 0 {
        0
    } else if hits[n - 1].1.holds(x, y) {
        n - 1
    } else {
        click_goes_to_the_last_button_there(hits, x, y, (n - 1) as nat)
    }
}

/// The area of a button is the one recorded last for it; there is none exactly if it was not
/// recorded.
pub proof fn area_is_the_last_recorded(hits: Seq<Hit>, button: TuiButton, n: nat) -> (i: int)
    requires
        n <= hits.len(),
    ensures
        latest_rect(hits, button, n) matches Some(area) ==> 0 <= i < n && hits[i] == (button, area)
            && forall|j: int| i < j < n ==> (#[trigger] hits[j]).0 != button,
        latest_rect(hits, button, n) is None ==> forall|j: int|
            0 <= j < n ==> (#[trigger] hits[j]).0 != button,
    decreases n,
{
    if n == 0 {
        0
    } else if hits[n - 1].0 == button {
        n - 1
    } else {
        area_is_the_last_recorded(hits, button, (n - 1) as nat)
    }
}

/// An area in the middle of another leaves as much on one side as on the other, or one less.
pub proof fn centered_area_is_in_the_middle(width: int, height: int, area: Rect)
    requires
        area.wf(),
        0 <= width <= u16::MAX,
        0 <= height <= u16::MAX,
    ensures
        ({
            let r = centered(width, height, area);
            let left = r.x - area.x;
            let right = area.width - r.width - left;
            let above = r.y - area.y;
            let below = area.height - r.height - above;
            &&& r.width == if width <= area.width { width } else { area.width as int }
            &&& r.height == if height <= area.height { height } else { area.height as int }
            &&& 0 <= left <= right <= left + 1
            &&& 0 <= above <= below <= above + 1
        }),
{
}

/// The inside of a border is the area without a cell on each side.
pub proof fn border_takes_a_cell_on_each_side(r: Rect, x: int, y: int)
    requires
        r.wf(),
    ensures
        inside_border(r).holds(x, y) <==> r.x < x < r.x + r.width - 1 && r.y < y < r.y + r.height - 1,
{
}

/// A popup takes its share of the screen, but no less than its minimum, where the screen has room
/// for that and a cell on each side; it is in the middle.
pub proof fn popup_takes_its_share(
    width: int,
    height: int,
    wide: int,
    min_w: int,
    high: int,
    min_h: int,
)
    requires
        0 <= width <= u16::MAX,
        0 <= height <= u16::MAX,
        0 <= wide <= 98,
        0 <= high <= 98,
        0 <= min_w <= width - 2,
        0 <= min_h <= height - 2,
        width * wide / 100 <= width - 2,
        height * high / 100 <= height - 2,
    ensures
        ({
            let r = share(width, height, wide, min_w, high, min_h);
            &&& r.width >= min_w
            &&& r.height >= min_h
            &&& (r.width > min_w ==> 100 * r.width <= width * wide < 100 * (r.width + 1))
            &&& (r.height > min_h ==> 100 * r.height <= height * high < 100 * (r.height + 1))
            &&& r.x <= width - r.width - r.x <= r.x + 1
            &&& r.y <= height - r.height - r.y <= r.y + 1
        }),
{
    assert(width * wide >= 0) by (nonlinear_arith)
        requires
            width >= 0,
            wide >= 0,
    ;
    assert(height * high >= 0) by (nonlinear_arith)
        requires
            height >= 0,
            high >= 0,
    ;
}

proof fn lemma_tail(path: Seq<char>, n: nat)
    requires
        n <= path.len(),
    ensures
        tail_start(path, n) <= n,
        tail_start(path, n) > 0 ==> path[tail_start(path, n) - 1] == '/',
        forall|i: int| tail_start(path, n) <= i < n ==> #[trigger] path[i] != '/',
    decreases n,
{
    if n > 0 && path[n - 1] != '/' {
        lemma_tail(path, (n - 1) as nat);
    }
}

/// The text has no slash.
pub open spec fn no_slash(text: Seq<char>) -> bool {
    forall|i: int| 0 <= i < text.len() ==> #[trigger] text[i] != '/'
}

/// The text can be the name of a file: it is not empty, has no slash, and is not one of the names
/// that stand for directories.
pub open spec fn plain_name(text: Seq<char>) -> bool {
    &&& text.len() > 0
    &&& no_slash(text)
    &&& text != "."@
    &&& text != ".."@
}

proof fn lemma_joined_path(dir: Seq<char>, name: Seq<char>)
    requires
        no_slash(name),
    ensures
        ({
            let path = dir.push('/') + name;
            &&& tail_start(path, path.len()) == dir.len() + 1
            &&& tail(path) == name
            &&& head(path) == dir
            &&& path.take(dir.len() as int) == dir
        }),
{
    let path = dir.push('/') + name;
    lemma_tail(path, path.len());
    let k = tail_start(path, path.len()) as int;
    assert(path[dir.len() as int] == '/');
    if k > dir.len() + 1 {
        assert(path[k - 1] == name[k - 1 - dir.len() - 1]);
    }
    assert(k == dir.len() + 1);
    assert(tail(path) =~= name);
    assert(head(path) =~= dir);
}

proof fn lemma_bare_name(name: Seq<char>)
    requires
        no_slash(name),
    ensures
        tail_start(name, name.len()) == 0,
        tail(name) == name,
{
    lemma_tail(name, name.len());
    let k = tail_start(name, name.len()) as int;
    if k > 0 {
        assert(name[k - 1] != '/');
    }
    assert(tail(name) =~= name);
}

/// The name of a file in a directory is its name there, and its parent is that directory.
pub proof fn file_in_a_directory(dir: Seq<char>, name: Seq<char>)
    requires
        plain_name(name),
    ensures
        name_of(dir.push('/') + name) == Some(name),
        name_of(name) == Some(name),
        dir.len() > 0 && tail(dir).len() > 0 && tail(dir) != "."@ ==> parent_of(
            dir.push('/') + name,
        ) == Some(dir),
        dir.len() == 0 ==> parent_of(dir.push('/') + name) == Some("/"@),
        parent_of(name) == Some(Seq::<char>::empty()),
        components(dir.push('/') + name) == (if dir.len() == 0 {
            seq![ComponentV::Root]
        } else {
            components(dir)
        }).push(ComponentV::Named(name)),
{
    let path = dir.push('/') + name;
    lemma_joined_path(dir, name);
    lemma_bare_name(name);
    assert(body(path) == path);
    reveal_strlit("/");
    if path == "/"@ {
        assert(path.len() == 1);
    }
    if name == "/"@ {
        assert(name[0] == '/');
    }
    assert("/"@ =~= seq!['/']);
    if dir.len() == 0 {
        assert(path.take(1) =~= seq!['/']);
    }
    if dir.len() > 0 {
        assert(path.take(dir.len() as int) =~= dir);
        lemma_tail(dir, dir.len());
    }
    assert(name.take(0) =~= Seq::empty());
}

/// A slash at the end changes neither the name nor the parent of a directory.
pub proof fn trailing_slash_is_ignored(dir: Seq<char>)
    requires
        dir.len() > 0,
    ensures
        name_of(dir.push('/')) == name_of(dir),
        parent_of(dir.push('/')) == parent_of(dir),
{
    let path = dir.push('/');
    let none = Seq::<char>::empty();
    lemma_joined_path(dir, none);
    assert(path + none =~= path);
    assert(path.take(dir.len() as int) =~= dir);
}

proof fn lemma_last_dot(name: Seq<char>, n: nat)
    requires
        n <= name.len(),
    ensures
        last_dot(name, n) matches Some(dot) ==> 0 <= dot < n && name[dot] == '.' && forall|i: int|
            dot < i < n ==> #[trigger] name[i] != '.',
        last_dot(name, n) is None ==> forall|i: int| 0 <= i < n ==> #[trigger] name[i] != '.',
    decreases n,
{
    if n > 0 && name[n - 1] != '.' {
        lemma_last_dot(name, (n - 1) as nat);
    }
}

/// Stem and extension, with a dot between them, make the name; the extension has no dot. A name
/// without one, or with none but its first character, is all stem.
pub proof fn stem_and_extension_make_the_name(name: Seq<char>)
    ensures
        extension_of(name) matches Some(ext) ==> stem_of(name).len() > 0 && stem_of(name).push('.')
            + ext == name && forall|i: int| 0 <= i < ext.len() ==> #[trigger] ext[i] != '.',
        extension_of(name) is None ==> stem_of(name) == name && forall|i: int|
            1 <= i < name.len() ==> #[trigger] name[i] != '.',
{
    lemma_last_dot(name, name.len());
    if let Some(dot) = last_dot(name, name.len()) {
        if dot > 0 {
            let ext = name.skip(dot + 1);
            assert(name.take(dot).push('.') + ext =~= name);
            assert forall|i: int| 0 <= i < ext.len() implies #[trigger] ext[i] != '.' by {
                assert(name[dot + 1 + i] != '.');
            }
        }
    }
}

/// A directory comes before what is in it.
pub proof fn directory_comes_first(a: Seq<ComponentV>, b: Seq<ComponentV>)
    requires
        b.len() > 0,
    ensures
        before(a, a + b),
        !before(a + b, a),
    decreases a.len(),
{
    if a.len() > 0 {
        directory_comes_first(a.skip(1), b);
        assert((a + b).skip(1) =~= a.skip(1) + b);
    }
}

/// The first part in which two paths differ decides which comes first.
pub proof fn first_difference_decides(
    front: Seq<ComponentV>,
    x: Seq<char>,
    y: Seq<char>,
    a: Seq<ComponentV>,
    b: Seq<ComponentV>,
)
    requires
        x != y,
    ensures
        before(front.push(ComponentV::Named(x)) + a, front.push(ComponentV::Named(y)) + b)
            == text_before(x, y),
    decreases front.len(),
{
    let p = front.push(ComponentV::Named(x)) + a;
    let q = front.push(ComponentV::Named(y)) + b;
    if front.len() > 0 {
        first_difference_decides(front.skip(1), x, y, a, b);
        assert(p.skip(1) =~= front.skip(1).push(ComponentV::Named(x)) + a);
        assert(q.skip(1) =~= front.skip(1).push(ComponentV::Named(y)) + b);
    } else {
        assert(p[0] == ComponentV::Named(x));
        assert(q[0] == ComponentV::Named(y));
    }
}

/// The first character in which two names differ decides which comes first, and a name comes
/// before those that it begins.
pub proof fn names_are_ordered_by_their_characters(
    front: Seq<char>,
    x: char,
    y: char,
    a: Seq<char>,
    b: Seq<char>,
)
    ensures
        x != y ==> text_before(front.push(x) + a, front.push(y) + b) == (x < y),
        text_before(front, front.push(y) + b),
        !text_before(front.push(y) + b, front),
    decreases front.len(),
{
    let p = front.push(x) + a;
    let q = front.push(y) + b;
    if front.len() > 0 {
        names_are_ordered_by_their_characters(front.skip(1), x, y, a, b);
        assert(p.skip(1) =~= front.skip(1).push(x) + a);
        assert(q.skip(1) =~= front.skip(1).push(y) + b);
    } else {
        assert(p[0] == x);
        assert(q[0] == y);
    }
}

} // verus!
