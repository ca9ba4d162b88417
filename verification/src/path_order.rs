//! The components of file paths, and the order of paths by their components.

use crate::path::{lemma_tail_start, tail, tail_start};
use crate::text::{chars_of, same, string_of};
use vstd::prelude::*;

verus! {

/// A component of a path.
#[derive(Debug)]
pub enum Component {
    Root,
    Current,
    Up,
    Named(String),
}

/// The contents of a [`Component`].
pub enum ComponentV {
    Root,
    Current,
    Up,
    Named(Seq<char>),
}

impl View for Component {
    type V = ComponentV;

    open spec fn view(&self) -> ComponentV {
        match *self {
            Component::Root => ComponentV::Root,
            Component::Current => ComponentV::Current,
            Component::Up => ComponentV::Up,
            Component::Named(name) => ComponentV::Named(name@),
        }
    }
}

/// The component that `text` stands for.
pub open spec fn component(text: Seq<char>) -> ComponentV {
    if text == "."@ {
        ComponentV::Current
    } else if text == ".."@ {
        ComponentV::Up
    } else {
        ComponentV::Named(text)
    }
}

/// The components of a path: the root, then the parts between separators. Empty parts
/// do not count, and neither does `.` but at the beginning.
pub open spec fn components(path: Seq<char>) -> Seq<ComponentV>
    decreases path.len(),
{
    let k = tail_start(path, path.len());
    let t = tail(path);
    if path.len() == 0 {
        Seq::empty()
    } else if k == 0 {
        seq![component(t)]
    } else {
        proof {
            lemma_tail_start(path, path.len());
        }
        let front = if k == 1 {
            seq![ComponentV::Root]
        } else {
            components(path.take(k - 1))
        };
        if t.len() == 0 || t == "."@ {
            front
        } else {
            front.push(component(t))
        }
    }
}

/// The components of a path.
pub struct Components {
    pub items: Vec<Component>,
}

impl View for Components {
    type V = Seq<ComponentV>;

    open spec fn view(&self) -> Seq<ComponentV> {
        Seq::new(self.items@.len(), |i: int| self.items@[i]@)
    }
}

fn to_component(text: String) -> (r: Component)
    ensures
        r@ == component(text@),
{
    if same(text.as_str(), ".") {
        Component::Current
    } else if same(text.as_str(), "..") {
        Component::Up
    } else {
        Component::Named(text)
    }
}

fn components_upto(chars: &Vec<char>, n: usize) -> (r: Components)
    requires
        n <= chars@.len(),
    ensures
        r@ == components(chars@.take(n as int)),
    decreases n,
{
    let ghost part = chars@.take(n as int);
    if n == 0 {
        let none = Components { items: Vec::new() };
        proof {
            assert(none@ =~= components(part));
        }
        return none;
    }
    let mut k: usize = n;
    while k > 0 && chars[k - 1] != '/'
        invariant
            part == chars@.take(n as int),
            k <= n <= chars@.len(),
            tail_start(part, k as nat) == tail_start(part, n as nat),
        decreases k,
    {
        k -= 1;
    }
    let t = string_of(chars, k, n);
    proof {
        assert(chars@.subrange(k as int, n as int) =~= tail(part));
    }
    if k == 0 {
        let mut one = Components { items: Vec::new() };
        one.items.push(to_component(t));
        proof {
            assert(one@ =~= components(part));
        }
        return one;
    }
    let mut front = if k == 1 {
        let mut root = Components { items: Vec::new() };
        root.items.push(Component::Root);
        proof {
            assert(root@ =~= seq![ComponentV::Root]);
        }
        root
    } else {
        proof {
            assert(part.take(k - 1) =~= chars@.take(k - 1));
        }
        components_upto(chars, k - 1)
    };
    let ghost before = front@;
    if !t.as_str().is_empty() && !same(t.as_str(), ".") {
        front.items.push(to_component(t));
        proof {
            assert(front@ =~= before.push(component(t@)));
        }
    }
    front
}

/// The components of a path.
pub fn components_of(path: &str) -> (r: Components)
    ensures
        r@ == components(path@),
{
    let chars = chars_of(path);
    let n: usize = chars.len();
    proof {
        assert(chars@.take(n as int) =~= path@);
    }
    components_upto(&chars, n)
}

/// Whether text `a` comes before `b`, character by character.
pub open spec fn text_before(a: Seq<char>, b: Seq<char>) -> bool
    decreases a.len(),
{
    if b.len() == 0 {
        false
    } else if a.len() == 0 {
        true
    } else if a[0] != b[0] {
        a[0] < b[0]
    } else {
        text_before(a.skip(1), b.skip(1))
    }
}

/// The place of a kind of component: the root first, names last.
pub open spec fn rank(c: ComponentV) -> int {
    match c {
        ComponentV::Root => 0,
        ComponentV::Current => 1,
        ComponentV::Up => 2,
        ComponentV::Named(_) => 3,
    }
}

/// Whether component `a` comes before `b`.
pub open spec fn component_before(a: ComponentV, b: ComponentV) -> bool {
    match (a, b) {
        (ComponentV::Named(x), ComponentV::Named(y)) => text_before(x, y),
        _ => rank(a) < rank(b),
    }
}

/// Whether a path comes before another, component by component.
pub open spec fn before(a: Seq<ComponentV>, b: Seq<ComponentV>) -> bool
    decreases a.len(),
{
    if b.len() == 0 {
        false
    } else if a.len() == 0 {
        true
    } else if a[0] != b[0] {
        component_before(a[0], b[0])
    } else {
        before(a.skip(1), b.skip(1))
    }
}

proof fn lemma_text_total(a: Seq<char>, b: Seq<char>)
    ensures
        a != b ==> text_before(a, b) || text_before(b, a),
        !(text_before(a, b) && text_before(b, a)),
        !text_before(a, a),
    decreases a.len() + b.len(),
{
    if a.len() == 0 || b.len() == 0 {
        if a.len() == 0 && b.len() == 0 {
            assert(a =~= b);
        }
        if a.len() > 0 {
            lemma_text_irreflexive(a);
        }
    } else {
        lemma_text_irreflexive(a);
        if a[0] == b[0] {
            lemma_text_total(a.skip(1), b.skip(1));
            if a.skip(1) == b.skip(1) {
                assert(a =~= seq![a[0]] + a.skip(1));
                assert(b =~= seq![b[0]] + b.skip(1));
            }
        }
    }
}

proof fn lemma_text_irreflexive(a: Seq<char>)
    ensures
        !text_before(a, a),
    decreases a.len(),
{
    if a.len() > 0 {
        lemma_text_irreflexive(a.skip(1));
    }
}

proof fn lemma_text_transitive(a: Seq<char>, b: Seq<char>, c: Seq<char>)
    requires
        text_before(a, b),
        text_before(b, c),
    ensures
        text_before(a, c),
    decreases a.len(),
{
    if a.len() > 0 && a[0] == b[0] && b[0] == c[0] {
        lemma_text_transitive(a.skip(1), b.skip(1), c.skip(1));
    }
}

proof fn lemma_component_total(a: ComponentV, b: ComponentV)
    ensures
        a != b ==> component_before(a, b) || component_before(b, a),
        !(component_before(a, b) && component_before(b, a)),
{
    match (a, b) {
        (ComponentV::Named(x), ComponentV::Named(y)) => {
            lemma_text_total(x, y);
        },
        _ => {},
    }
}

proof fn lemma_component_transitive(a: ComponentV, b: ComponentV, c: ComponentV)
    requires
        component_before(a, b),
        component_before(b, c),
    ensures
        component_before(a, c),
        a != c,
{
    match (a, b) {
        (ComponentV::Named(x), ComponentV::Named(y)) => match c {
            ComponentV::Named(z) => {
                lemma_text_transitive(x, y, z);
                lemma_text_irreflexive(x);
            },
            _ => {},
        },
        _ => {},
    }
}

/// Of two different paths one comes before the other, and never both.
pub proof fn order_is_total(a: Seq<ComponentV>, b: Seq<ComponentV>)
    ensures
        a != b ==> before(a, b) || before(b, a),
        !(before(a, b) && before(b, a)),
    decreases a.len(),
{
    if a.len() == 0 || b.len() == 0 {
        if a.len() == 0 && b.len() == 0 {
            assert(a =~= b);
        }
    } else if a[0] == b[0] {
        order_is_total(a.skip(1), b.skip(1));
        if a.skip(1) == b.skip(1) {
            assert(a =~= seq![a[0]] + a.skip(1));
            assert(b =~= seq![b[0]] + b.skip(1));
        }
    } else {
        lemma_component_total(a[0], b[0]);
    }
}

/// A path that comes before a second one comes before every path behind that.
pub proof fn order_is_transitive(a: Seq<ComponentV>, b: Seq<ComponentV>, c: Seq<ComponentV>)
    requires
        before(a, b),
        before(b, c),
    ensures
        before(a, c),
    decreases a.len(),
{
    if a.len() > 0 {
        if a[0] == b[0] && b[0] == c[0] {
            order_is_transitive(a.skip(1), b.skip(1), c.skip(1));
        } else if a[0] != b[0] && b[0] != c[0] {
            lemma_component_transitive(a[0], b[0], c[0]);
        }
    }
}

/// How one thing stands to another in an order.
#[derive(Clone, Copy, Debug, PartialEq, Eq, Structural)]
pub enum Place {
    Before,
    Same,
    Behind,
}

fn compare_texts(a: &str, b: &str) -> (r: Place)
    ensures
        r == Place::Before <==> text_before(a@, b@),
        r == Place::Same <==> a@ == b@,
        r == Place::Behind <==> text_before(b@, a@),
{
    let x = chars_of(a);
    let y = chars_of(b);
    let n: usize = if x.len() <= y.len() { x.len() } else { y.len() };
    proof {
        lemma_text_total(a@, b@);
        assert(a@.skip(0) =~= a@);
        assert(b@.skip(0) =~= b@);
    }
    for i in 0..n
        invariant
            x@ == a@,
            y@ == b@,
            n <= x@.len(),
            n <= y@.len(),
            a@.take(i as int) =~= b@.take(i as int),
            text_before(a@, b@) == text_before(a@.skip(i as int), b@.skip(i as int)),
            text_before(b@, a@) == text_before(b@.skip(i as int), a@.skip(i as int)),
            !(text_before(a@, b@) && text_before(b@, a@)),
            a@ == b@ ==> !text_before(a@, b@) && !text_before(b@, a@),
    {
        if x[i] < y[i] {
            return Place::Before;
        }
        if y[i] < x[i] {
            return Place::Behind;
        }
        proof {
            assert(a@.skip(i as int).skip(1) =~= a@.skip(i + 1));
            assert(b@.skip(i as int).skip(1) =~= b@.skip(i + 1));
            assert(a@.take(i + 1) =~= a@.take(i as int).push(a@[i as int]));
            assert(b@.take(i + 1) =~= b@.take(i as int).push(b@[i as int]));
        }
    }
    if x.len() < y.len() {
        Place::Before
    } else if y.len() < x.len() {
        Place::Behind
    } else {
        proof {
            assert(a@ =~= a@.take(n as int));
            assert(b@ =~= b@.take(n as int));
        }
        Place::Same
    }
}

#[verifier::allow_in_spec]
fn number(c: &Component) -> (r: u8)
    returns
        (match *c {
            Component::Root => 0u8,
            Component::Current => 1u8,
            Component::Up => 2u8,
            Component::Named(_) => 3u8,
        }),
{
    match c {
        Component::Root => 0,
        Component::Current => 1,
        Component::Up => 2,
        Component::Named(_) => 3,
    }
}

fn compare_components(a: &Component, b: &Component) -> (r: Place)
    ensures
        r == Place::Before <==> component_before(a@, b@),
        r == Place::Same <==> a@ == b@,
        r == Place::Behind <==> component_before(b@, a@),
{
    match (a, b) {
        (Component::Named(x), Component::Named(y)) => compare_texts(x.as_str(), y.as_str()),
        _ => {
            let m: u8 = number(a);
            let n: u8 = number(b);
            if m < n {
                Place::Before
            } else if n < m {
                Place::Behind
            } else {
                Place::Same
            }
        },
    }
}

/// How one path stands to another.
pub fn compare_paths(a: &Components, b: &Components) -> (r: Place)
    ensures
        r == Place::Before <==> before(a@, b@),
        r == Place::Same <==> a@ == b@,
        r == Place::Behind <==> before(b@, a@),
{
    let x = &a.items;
    let y = &b.items;
    let n: usize = if x.len() <= y.len() { x.len() } else { y.len() };
    proof {
        order_is_total(a@, b@);
        if a@ == b@ {
            order_is_total(a@, a@);
        }
        assert(a@.skip(0) =~= a@);
        assert(b@.skip(0) =~= b@);
    }
    for i in 0..n
        invariant
            *x == a.items,
            *y == b.items,
            n <= x@.len(),
            n <= y@.len(),
            a@.take(i as int) =~= b@.take(i as int),
            before(a@, b@) == before(a@.skip(i as int), b@.skip(i as int)),
            before(b@, a@) == before(b@.skip(i as int), a@.skip(i as int)),
            !(before(a@, b@) && before(b@, a@)),
            a@ == b@ ==> !before(a@, b@) && !before(b@, a@),
    {
        proof {
            assert(a@.skip(i as int)[0] == x@[i as int]@);
            assert(b@.skip(i as int)[0] == y@[i as int]@);
            lemma_component_total(x@[i as int]@, y@[i as int]@);
        }
        let place = compare_components(&x[i], &y[i]);
        if place != Place::Same {
            return place;
        }
        proof {
            assert(a@.skip(i as int).skip(1) =~= a@.skip(i + 1));
            assert(b@.skip(i as int).skip(1) =~= b@.skip(i + 1));
            assert(a@.take(i + 1) =~= a@.take(i as int).push(a@[i as int]));
            assert(b@.take(i + 1) =~= b@.take(i as int).push(b@[i as int]));
        }
    }
    if x.len() < y.len() {
        Place::Before
    } else if y.len() < x.len() {
        Place::Behind
    } else {
        proof {
            assert(a@ =~= a@.take(n as int));
            assert(b@ =~= b@.take(n as int));
        }
        Place::Same
    }
}

} // verus!
