//! Absolute, `/`-separated locations: splitting, lexical normalisation and rendering.
//!
//! A location is modelled as the list of its components below the root. The empty list is
//! the root itself.

use vstd::prelude::*;

verus! {

/// The character that separates the components of a location.
pub open spec fn is_separator(c: char) -> bool {
    c == '/'
}

/// The contents of a list of character vectors.
pub open spec fn components_view(components: Seq<Vec<char>>) -> Seq<Seq<char>> {
    Seq::new(components.len(), |i: int| components[i]@)
}

/// The state of splitting after the first `n` characters of `text`: the segments that a
/// separator has closed, and the segment that is still open.
pub open spec fn split_state(text: Seq<char>, n: int) -> (Seq<Seq<char>>, Seq<char>)
    decreases n,
{
    if n <= 0 {
        (Seq::empty(), Seq::empty())
    } else {
        let (closed, open) = split_state(text, n - 1);
        if is_separator(text[n - 1]) {
            (closed.push(open), Seq::empty())
        } else {
            (closed, open.push(text[n - 1]))
        }
    }
}

/// The segments of `text` between its separators. There is one more segment than there
/// are separators; segments may be empty.
pub open spec fn segments(text: Seq<char>) -> Seq<Seq<char>> {
    let (closed, open) = split_state(text, text.len() as int);
    closed.push(open)
}

/// The segment that names the current directory.
pub open spec fn dot() -> Seq<char> {
    seq!['.']
}

/// The segment that names the parent directory.
pub open spec fn dot_dot() -> Seq<char> {
    seq!['.', '.']
}

/// The components of a location after one more segment is walked: an empty segment and
/// `.` stay in place, `..` goes one level up (and stays at the root), any other segment
/// goes one level down.
pub open spec fn walk_segment(components: Seq<Seq<char>>, segment: Seq<char>) -> Seq<Seq<char>> {
    if segment.len() == 0 || segment == dot() {
        components
    } else if segment == dot_dot() {
        if components.len() > 0 {
            components.drop_last()
        } else {
            components
        }
    } else {
        components.push(segment)
    }
}

/// The components of a location after the first `n` of the given segments are walked
/// from `base`.
pub open spec fn walk_segments(base: Seq<Seq<char>>, segs: Seq<Seq<char>>, n: int) -> Seq<
    Seq<char>,
>
    decreases n,
{
    if n <= 0 {
        base
    } else {
        walk_segment(walk_segments(base, segs, n - 1), segs[n - 1])
    }
}

/// The components of the location that `text` names when it is followed from `base`.
pub open spec fn walk(base: Seq<Seq<char>>, text: Seq<char>) -> Seq<Seq<char>> {
    walk_segments(base, segments(text), segments(text).len() as int)
}

/// The components of the absolute location that `text` names.
pub open spec fn components_of(text: Seq<char>) -> Seq<Seq<char>> {
    walk(Seq::empty(), text)
}

/// The components of the directory that holds the location with the given components.
/// The root holds itself.
pub open spec fn parent_of(components: Seq<Seq<char>>) -> Seq<Seq<char>> {
    if components.len() > 0 {
        components.drop_last()
    } else {
        components
    }
}

/// The text of the first `n` components, each behind a separator.
pub open spec fn rendered_prefix(components: Seq<Seq<char>>, n: int) -> Seq<char>
    decreases n,
{
    if n <= 0 {
        Seq::empty()
    } else {
        rendered_prefix(components, n - 1) + seq!['/'] + components[n - 1]
    }
}

/// The text of a location: a separator before each component, and a single separator for
/// the root.
pub open spec fn rendered(components: Seq<Seq<char>>) -> Seq<char> {
    if components.len() == 0 {
        seq!['/']
    } else {
        rendered_prefix(components, components.len() as int)
    }
}

/// The normal form of an absolute location given as text.
pub open spec fn normalized(text: Seq<char>) -> Seq<char> {
    rendered(components_of(text))
}

/// Whether two character vectors hold the same text.
pub fn same_chars(a: &Vec<char>, b: &Vec<char>) -> (same: bool)
    ensures
        same == (a@ == b@),
{
    if a.len() != b.len() {
        return false;
    }
    let mut i: usize = 0;
    while i < a.len()
        invariant
            a.len() == b.len(),
            i <= a.len(),
            a@.subrange(0, i as int) == b@.subrange(0, i as int),
        decreases a.len() - i,
    {
        if a[i] != b[i] {
            return false;
        }
        i += 1;
        assert(a@.subrange(0, i as int) =~= a@.subrange(0, i - 1).push(a@[i - 1]));
        assert(b@.subrange(0, i as int) =~= b@.subrange(0, i - 1).push(b@[i - 1]));
    }
    assert(a@ =~= a@.subrange(0, a.len() as int));
    assert(b@ =~= b@.subrange(0, b.len() as int));
    true
}

/// Whether `text` begins with `prefix`.
pub fn starts_with_chars(text: &Vec<char>, prefix: &Vec<char>) -> (starts: bool)
    ensures
        starts == prefix@.is_prefix_of(text@),
{
    if prefix.len() > text.len() {
        return false;
    }
    let mut i: usize = 0;
    while i < prefix.len()
        invariant
            prefix.len() <= text.len(),
            i <= prefix.len(),
            forall|j: int| 0 <= j < i ==> prefix@[j] == text@[j],
        decreases prefix.len() - i,
    {
        if prefix[i] != text[i] {
            assert(prefix@[i as int] != text@.subrange(0, prefix@.len() as int)[i as int]);
            return false;
        }
        i += 1;
    }
    assert(prefix@ =~= text@.subrange(0, prefix@.len() as int));
    true
}

/// A copy of a character vector.
pub fn copy_chars(chars: &Vec<char>) -> (copy: Vec<char>)
    ensures
        copy@ == chars@,
{
    let mut copy: Vec<char> = Vec::new();
    let mut i: usize = 0;
    while i < chars.len()
        invariant
            i <= chars.len(),
            copy@ == chars@.subrange(0, i as int),
        decreases chars.len() - i,
    {
        copy.push(chars[i]);
        i += 1;
        assert(copy@ =~= chars@.subrange(0, i as int));
    }
    assert(chars@.subrange(0, chars.len() as int) =~= chars@);
    copy
}

/// Splits `text` at its separators.
pub fn split_segments(text: &Vec<char>) -> (segs: Vec<Vec<char>>)
    ensures
        components_view(segs@) == segments(text@),
{
    let mut closed: Vec<Vec<char>> = Vec::new();
    let mut open: Vec<char> = Vec::new();
    let mut i: usize = 0;
    while i < text.len()
        invariant
            i <= text.len(),
            (components_view(closed@), open@) == split_state(text@, i as int),
        decreases text.len() - i,
    {
        let c = text[i];
        let ghost before = components_view(closed@);
        if c == '/' {
            let ghost done = open@;
            closed.push(open);
            open = Vec::new();
            assert(components_view(closed@) =~= before.push(done));
        } else {
            open.push(c);
        }
        i += 1;
    }
    let ghost before = components_view(closed@);
    let ghost last = open@;
    closed.push(open);
    assert(components_view(closed@) =~= before.push(last));
    closed
}

/// Whether a segment is `.`.
fn is_dot(segment: &Vec<char>) -> (yes: bool)
    ensures
        yes == (segment@ == dot()),
{
    let yes = segment.len() == 1 && segment[0] == '.';
    assert(yes == (segment@ =~= dot()));
    yes
}

/// Whether a segment is `..`.
fn is_dot_dot(segment: &Vec<char>) -> (yes: bool)
    ensures
        yes == (segment@ == dot_dot()),
{
    let yes = segment.len() == 2 && segment[0] == '.' && segment[1] == '.';
    assert(yes == (segment@ =~= dot_dot()));
    yes
}

/// Follows `text` from the location with the given components.
pub fn walk_from(base: Vec<Vec<char>>, text: &Vec<char>) -> (components: Vec<Vec<char>>)
    ensures
        components_view(components@) == walk(components_view(base@), text@),
{
    let segs = split_segments(text);
    let mut components = base;
    let mut i: usize = 0;
    while i < segs.len()
        invariant
            i <= segs.len(),
            components_view(segs@) == segments(text@),
            components_view(components@) == walk_segments(
                components_view(base@),
                segments(text@),
                i as int,
            ),
        decreases segs.len() - i,
    {
        let ghost before = components_view(components@);
        assert(components_view(segs@)[i as int] == segs@[i as int]@);
        if segs[i].len() == 0 || is_dot(&segs[i]) {
        } else if is_dot_dot(&segs[i]) {
            if components.len() > 0 {
                components.pop();
                assert(components_view(components@) =~= before.drop_last());
            }
        } else {
            let segment = copy_chars(&segs[i]);
            components.push(segment);
            assert(components_view(components@) =~= before.push(segs@[i as int]@));
        }
        i += 1;
    }
    components
}

/// The components of the absolute location that `text` names.
pub fn components(text: &Vec<char>) -> (components: Vec<Vec<char>>)
    ensures
        components_view(components@) == components_of(text@),
{
    let base: Vec<Vec<char>> = Vec::new();
    assert(components_view(base@) =~= Seq::empty());
    walk_from(base, text)
}

/// Renders a location as text.
pub fn render(components: &Vec<Vec<char>>) -> (text: Vec<char>)
    ensures
        text@ == rendered(components_view(components@)),
{
    let mut text: Vec<char> = Vec::new();
    if components.len() == 0 {
        text.push('/');
        assert(text@ =~= seq!['/']);
        return text;
    }
    let mut i: usize = 0;
    while i < components.len()
        invariant
            i <= components.len(),
            text@ == rendered_prefix(components_view(components@), i as int),
        decreases components.len() - i,
    {
        let ghost before = text@;
        text.push('/');
        let part = &components[i];
        let mut j: usize = 0;
        while j < part.len()
            invariant
                j <= part.len(),
                text@ == before + seq!['/'] + part@.subrange(0, j as int),
            decreases part.len() - j,
        {
            text.push(part[j]);
            j += 1;
            assert(text@ =~= before + seq!['/'] + part@.subrange(0, j as int));
        }
        assert(part@.subrange(0, part.len() as int) =~= part@);
        assert(components_view(components@)[i as int] == part@);
        i += 1;
    }
    text
}

/// Whether a text holds no separator.
pub open spec fn no_separator(text: Seq<char>) -> bool {
    forall|i: int| 0 <= i < text.len() ==> !is_separator(#[trigger] text[i])
}

/// Whether a segment names an entry of a directory: it is not empty, holds no separator,
/// and is neither `.` nor `..`.
pub open spec fn is_name(segment: Seq<char>) -> bool {
    segment.len() > 0 && no_separator(segment) && segment != dot() && segment != dot_dot()
}

/// Whether every component is the name of an entry of a directory.
pub open spec fn all_names(components: Seq<Seq<char>>) -> bool {
    forall|i: int| 0 <= i < components.len() ==> is_name(#[trigger] components[i])
}

/// The state of splitting after `n` characters depends on those characters only.
pub proof fn lemma_split_state_of_prefix(a: Seq<char>, b: Seq<char>, n: int)
    requires
        0 <= n <= a.len(),
        n <= b.len(),
        forall|i: int| 0 <= i < n ==> a[i] == b[i],
    ensures
        split_state(a, n) == split_state(b, n),
    decreases n,
{
    if n > 0 {
        lemma_split_state_of_prefix(a, b, n - 1);
    }
}

/// Splitting yields segments without separators.
pub proof fn lemma_split_state_segments(text: Seq<char>, n: int)
    requires
        0 <= n <= text.len(),
    ensures
        no_separator(split_state(text, n).1),
        forall|i: int|
            0 <= i < split_state(text, n).0.len() ==> no_separator(
                #[trigger] split_state(text, n).0[i],
            ),
    decreases n,
{
    if n > 0 {
        lemma_split_state_segments(text, n - 1);
    }
}

/// A text without separators that follows another text extends the open segment.
pub proof fn lemma_split_state_extended(head: Seq<char>, tail: Seq<char>, k: int)
    requires
        no_separator(tail),
        0 <= k <= tail.len(),
    ensures
        split_state(head + tail, head.len() as int + k) == (
            split_state(head, head.len() as int).0,
            split_state(head, head.len() as int).1 + tail.subrange(0, k),
        ),
    decreases k,
{
    let whole = head + tail;
    let before = split_state(head, head.len() as int);
    if k == 0 {
        lemma_split_state_of_prefix(whole, head, head.len() as int);
        assert(before.1 + tail.subrange(0, 0) =~= before.1);
    } else {
        lemma_split_state_extended(head, tail, k - 1);
        assert(whole[head.len() + k - 1] == tail[k - 1]);
        assert(!is_separator(tail[k - 1]));
        assert((before.1 + tail.subrange(0, k - 1)).push(tail[k - 1]) =~= before.1 + tail.subrange(
            0,
            k,
        ));
    }
}

/// A separator that follows a text closes the open segment.
pub proof fn lemma_split_state_closed(head: Seq<char>)
    ensures
        split_state(head + seq!['/'], head.len() as int + 1) == (
            split_state(head, head.len() as int).0.push(split_state(head, head.len() as int).1),
            Seq::<char>::empty(),
        ),
{
    let whole = head + seq!['/'];
    lemma_split_state_of_prefix(whole, head, head.len() as int);
    assert(whole[head.len() as int] == '/');
}

/// The text of the first `n` names splits into an empty segment, then the names.
pub proof fn lemma_split_state_of_rendered(components: Seq<Seq<char>>, n: int)
    requires
        all_names(components),
        1 <= n <= components.len(),
    ensures
        split_state(
            rendered_prefix(components, n),
            rendered_prefix(components, n).len() as int,
        ) == (seq![Seq::<char>::empty()] + components.subrange(0, n - 1), components[n - 1]),
    decreases n,
{
    let head = rendered_prefix(components, n - 1);
    let name = components[n - 1];
    let before = split_state(head, head.len() as int);
    let expected_closed = seq![Seq::<char>::empty()] + components.subrange(0, n - 1);
    if n == 1 {
        assert(head =~= Seq::<char>::empty());
        assert(before == (Seq::<Seq<char>>::empty(), Seq::<char>::empty()));
        assert(before.0.push(before.1) =~= expected_closed);
    } else {
        lemma_split_state_of_rendered(components, n - 1);
        assert(before.0.push(before.1) =~= expected_closed) by {
            assert(components.subrange(0, n - 2).push(components[n - 2]) =~= components.subrange(
                0,
                n - 1,
            ));
        }
    }
    lemma_split_state_closed(head);
    let with_separator = head + seq!['/'];
    assert(is_name(name));
    lemma_split_state_extended(with_separator, name, name.len() as int);
    assert(name.subrange(0, name.len() as int) =~= name);
    assert(Seq::<char>::empty() + name =~= name);
    assert(rendered_prefix(components, n) =~= with_separator + name);
}

/// Walking an empty segment and then names from the root gives those names.
pub proof fn lemma_walk_names(components: Seq<Seq<char>>, k: int)
    requires
        all_names(components),
        0 <= k <= components.len(),
    ensures
        walk_segments(
            Seq::empty(),
            seq![Seq::<char>::empty()] + components,
            k + 1,
        ) == components.subrange(0, k),
    decreases k,
{
    let segs = seq![Seq::<char>::empty()] + components;
    if k == 0 {
        assert(segs[0].len() == 0);
        assert(walk_segments(Seq::empty(), segs, 0) == Seq::<Seq<char>>::empty());
        assert(components.subrange(0, 0) =~= Seq::<Seq<char>>::empty());
    } else {
        lemma_walk_names(components, k - 1);
        assert(segs[k] == components[k - 1]);
        assert(is_name(components[k - 1]));
        assert(components.subrange(0, k - 1).push(components[k - 1]) =~= components.subrange(
            0,
            k,
        ));
    }
}

/// Rendering and parsing are inverse: the text of a location whose components are names
/// names that location.
pub proof fn lemma_components_of_rendered(components: Seq<Seq<char>>)
    requires
        all_names(components),
    ensures
        components_of(rendered(components)) == components,
{
    let text = rendered(components);
    if components.len() == 0 {
        let one = split_state(text, 1);
        assert(split_state(text, 0) == (Seq::<Seq<char>>::empty(), Seq::<char>::empty()));
        assert(text[0] == '/');
        assert(one == (seq![Seq::<char>::empty()], Seq::<char>::empty()));
        let segs = segments(text);
        assert(segs =~= seq![Seq::<char>::empty(), Seq::<char>::empty()]);
        assert(walk_segments(Seq::empty(), segs, 0) == Seq::<Seq<char>>::empty());
        assert(walk_segments(Seq::empty(), segs, 1) == Seq::<Seq<char>>::empty());
        assert(walk_segments(Seq::empty(), segs, 2) == Seq::<Seq<char>>::empty());
        assert(components =~= Seq::<Seq<char>>::empty());
    } else {
        let n = components.len() as int;
        lemma_split_state_of_rendered(components, n);
        let segs = segments(text);
        assert(segs =~= seq![Seq::<char>::empty()] + components) by {
            assert(components.subrange(0, n - 1).push(components[n - 1]) =~= components);
        }
        lemma_walk_names(components, n);
        assert(components.subrange(0, n) =~= components);
    }
}

/// Walking the first `n` segments of a text from names gives names.
pub proof fn lemma_walk_segments_names(base: Seq<Seq<char>>, text: Seq<char>, n: int)
    requires
        all_names(base),
        0 <= n <= segments(text).len(),
    ensures
        all_names(walk_segments(base, segments(text), n)),
    decreases n,
{
    if n > 0 {
        lemma_walk_segments_names(base, text, n - 1);
        lemma_split_state_segments(text, text.len() as int);
        let state = split_state(text, text.len() as int);
        let segs = segments(text);
        assert(no_separator(segs[n - 1])) by {
            if n - 1 < state.0.len() {
                assert(segs[n - 1] == state.0[n - 1]);
            } else {
                assert(segs[n - 1] == state.1);
            }
        }
        let before = walk_segments(base, segs, n - 1);
        let after = walk_segment(before, segs[n - 1]);
        assert forall|i: int| 0 <= i < after.len() implies is_name(#[trigger] after[i]) by {
            if i < before.len() {
                assert(after[i] == before[i]);
            }
        }
    }
}

/// The normal form is stable: the components of a location are names, and the normal
/// form of a text in normal form is that text.
pub proof fn law_normal_form_is_stable(text: Seq<char>)
    ensures
        all_names(components_of(text)),
        components_of(normalized(text)) == components_of(text),
        normalized(normalized(text)) == normalized(text),
{
    lemma_walk_segments_names(Seq::empty(), text, segments(text).len() as int);
    lemma_components_of_rendered(components_of(text));
}

} // verus!
