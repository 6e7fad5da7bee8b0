//! Paths as text in Unix notation, with `/` between their components.

use vstd::prelude::*;

verus! {

/// A path extended by another: an absolute one replaces it, a relative one is appended with one
/// separator between the two.
pub open spec fn joined(base: Seq<char>, part: Seq<char>) -> Seq<char> {
    if part.len() > 0 && part[0] == '/' {
        part
    } else if base.len() == 0 || base.last() == '/' {
        base + part
    } else {
        base.push('/') + part
    }
}

/// Where the stretch without separators that stops at `end` starts.
pub open spec fn segment_start(path: Seq<char>, end: int) -> int
    decreases end,
{
    if end <= 0 {
        0
    } else if path[end - 1] == '/' {
        end
    } else {
        segment_start(path, end - 1)
    }
}

/// Where the last component stops, once trailing separators and `.` components are set aside.
pub open spec fn component_end(path: Seq<char>, end: int) -> int
    decreases end,
    when 0 <= end
    via component_end_decreases
{
    let start = segment_start(path, end);
    if start > 0 && (start == end || (start == end - 1 && path[start] == '.')) {
        component_end(path, start - 1)
    } else {
        end
    }
}

#[via_fn]
proof fn component_end_decreases(path: Seq<char>, end: int) {
    lemma_segment_start(path, end);
}

/// The last component of a path; `/` for the root, and none for the empty path.
pub open spec fn last_component(path: Seq<char>) -> Option<Seq<char>> {
    let end = component_end(path, path.len() as int);
    if end > 0 {
        Some(path.subrange(segment_start(path, end), end))
    } else if path.len() > 0 {
        Some(seq!['/'])
    } else {
        None
    }
}

/// Whether the last component names a file or directory, unlike `/`, `.` and `..`.
pub open spec fn has_file_name(path: Seq<char>) -> bool {
    match last_component(path) {
        Some(name) => name != seq!['/'] && name != seq!['.'] && name != seq!['.', '.'],
        None => false,
    }
}

/// A path with an extension added to its file name. A path without a file name stays as it is,
/// and so does every path where the extension is empty.
pub open spec fn extended(path: Seq<char>, extension: Seq<char>) -> Seq<char> {
    if extension.len() == 0 || !has_file_name(path) {
        path
    } else {
        path.take(component_end(path, path.len() as int)).push('.') + extension
    }
}

proof fn lemma_segment_start(path: Seq<char>, end: int)
    requires
        0 <= end,
    ensures
        0 <= segment_start(path, end) <= end,
        forall|i: int| segment_start(path, end) <= i < end ==> path[i] != '/',
        segment_start(path, end) > 0 ==> path[segment_start(path, end) - 1] == '/',
    decreases end,
{
    if end > 0 && path[end - 1] != '/' {
        lemma_segment_start(path, end - 1);
    }
}

/// An ordinary name joined to a path is its last component.
pub proof fn law_joined_name_is_last(base: Seq<char>, name: Seq<char>)
    requires
        name.len() > 0,
        !name.contains('/'),
        name != seq!['.'],
    ensures
        last_component(joined(base, name)) == Some(name),
        component_end(joined(base, name), joined(base, name).len() as int) == joined(
            base,
            name,
        ).len(),
{
    let path = joined(base, name);
    let end = path.len() as int;
    let start = end - name.len();
    assert(forall|i: int| 0 <= i < name.len() ==> name[i] != '/');
    assert forall|i: int| start <= i < end implies path[i] != '/' by {
        assert(path[i] == name[i - start]);
    }
    assert(start > 0 ==> path[start - 1] == '/');
    lemma_segment_is(path, start, end);
    assert(path.subrange(start, end) =~= name);
    if name.len() == 1 {
        assert(name =~= seq![name[0]]);
    }
}

proof fn lemma_segment_is(path: Seq<char>, start: int, end: int)
    requires
        0 <= start <= end <= path.len(),
        forall|i: int| start <= i < end ==> path[i] != '/',
        start > 0 ==> path[start - 1] == '/',
    ensures
        segment_start(path, end) == start,
    decreases end,
{
    if end > start {
        lemma_segment_is(path, start, end - 1);
    }
}

/// An ordinary name joined to a path and given an extension ends the path, after a separator.
pub proof fn law_stored_path(base: Seq<char>, name: Seq<char>, extension: Seq<char>)
    requires
        name.len() > 0,
        !name.contains('/'),
        name != seq!['.'],
        name != seq!['.', '.'],
        extension.len() > 0,
    ensures
        extended(joined(base, name), extension) == joined(base, name).push('.') + extension,
        base.len() > 0 && base.last() != '/' ==> extended(joined(base, name), extension)
            == base.push('/') + name.push('.') + extension,
{
    law_joined_name_is_last(base, name);
    let path = joined(base, name);
    assert(name != seq!['/']) by {
        assert(seq!['/'][0] == '/');
    }
    assert(path.take(path.len() as int) =~= path);
    if base.len() > 0 && base.last() != '/' {
        assert(name[0] != '/');
        assert(path.push('.') + extension =~= base.push('/') + name.push('.') + extension);
    }
}

/// Extends a path by another.
pub fn join(base: &str, part: &str) -> (path: String)
    ensures
        path@ == joined(base@, part@),
{
    proof {
        reveal_strlit("/");
    }
    if !part.is_empty() && part.get_char(0) == '/' {
        return part.to_owned();
    }
    let mut path = base.to_owned();
    let length = base.unicode_len();
    if length > 0 && base.get_char(length - 1) != '/' {
        path.append("/");
        proof {
            assert(path@ =~= base@.push('/'));
        }
    }
    path.append(part);
    path
}

/// The characters of a text.
fn characters(text: &str) -> (chars: Vec<char>)
    ensures
        chars@ == text@,
{
    let mut chars: Vec<char> = Vec::new();
    for c in iter: text.chars()
        invariant
            iter.seq() == text@,
            chars@ == text@.take(iter.index()),
    {
        chars.push(c);
    }
    chars
}

/// Where the stretch without separators that stops at `end` starts.
fn find_segment_start(chars: &Vec<char>, end: usize) -> (start: usize)
    requires
        end <= chars@.len(),
    ensures
        start == segment_start(chars@, end as int),
        start <= end,
{
    let mut start: usize = end;
    while start > 0 && chars[start - 1] != '/'
        invariant
            start <= end <= chars@.len(),
            segment_start(chars@, start as int) == segment_start(chars@, end as int),
        decreases start,
    {
        start -= 1;
    }
    start
}

/// Where the last component stops.
fn find_component_end(chars: &Vec<char>) -> (end: usize)
    ensures
        end == component_end(chars@, chars@.len() as int),
        end <= chars@.len(),
{
    let mut end: usize = chars.len();
    loop
        invariant
            end <= chars@.len(),
            component_end(chars@, end as int) == component_end(chars@, chars@.len() as int),
        decreases end,
    {
        let start = find_segment_start(chars, end);
        if start > 0 && (start == end || (start == end - 1 && chars[start] == '.')) {
            end = start - 1;
        } else {
            return end;
        }
    }
}

/// The last component of a path.
pub fn find_last_component(path: &str) -> (component: Option<String>)
    ensures
        component is Some <==> last_component(path@) is Some,
        component matches Some(name) ==> name@ == last_component(path@)->Some_0,
{
    let chars = characters(path);
    let end = find_component_end(&chars);
    if end > 0 {
        let start = find_segment_start(&chars, end);
        Some(path.substring_char(start, end).to_owned())
    } else if chars.len() > 0 {
        proof {
            reveal_strlit("/");
            assert("/"@ =~= seq!['/']);
        }
        Some("/".to_owned())
    } else {
        None
    }
}

/// Whether an extension holds a separator, which no file name can.
pub fn holds_separator(extension: &str) -> (holds: bool)
    ensures
        holds == extension@.contains('/'),
{
    let chars = characters(extension);
    for i in 0..chars.len()
        invariant
            chars@ == extension@,
            forall|j: int| 0 <= j < i ==> chars@[j] != '/',
    {
        if chars[i] == '/' {
            return true;
        }
    }
    false
}

/// Adds an extension to the file name of a path.
pub fn add_extension(path: &str, extension: &str) -> (result: String)
    requires
        !extension@.contains('/'),
    ensures
        result@ == extended(path@, extension@),
{
    let named = match find_last_component(path) {
        Some(name) => {
            proof {
                reveal_strlit("/");
                reveal_strlit(".");
                reveal_strlit("..");
                assert("/"@ =~= seq!['/']);
                assert("."@ =~= seq!['.']);
                assert(".."@ =~= seq!['.', '.']);
            }
            name != "/".to_owned() && name != ".".to_owned() && name != "..".to_owned()
        },
        None => false,
    };
    if extension.is_empty() || !named {
        return path.to_owned();
    }
    let chars = characters(path);
    let end = find_component_end(&chars);
    let mut result = path.substring_char(0, end).to_owned();
    result.append(".");
    result.append(extension);
    proof {
        reveal_strlit(".");
        assert(result@ =~= extended(path@, extension@));
    }
    result
}

/// A relative path that extends another ends the result whole, the other starts it whole, and
/// between the two stands one separator, or none where the other is empty or ends in one.
pub proof fn law_joined_keeps_both(base: Seq<char>, part: Seq<char>)
    requires
        part.len() == 0 || part[0] != '/',
    ensures
        joined(base, part).take(base.len() as int) == base,
        joined(base, part).skip(joined(base, part).len() - part.len()) == part,
        base.len() == 0 || base.last() == '/' ==> joined(base, part).len() == base.len()
            + part.len(),
        base.len() > 0 && base.last() != '/' ==> {
            &&& joined(base, part).len() == base.len() + 1 + part.len()
            &&& joined(base, part)[base.len() as int] == '/'
        },
{
}

/// An absolute path that extends another takes its place.
pub proof fn law_absolute_path_replaces(base: Seq<char>, part: Seq<char>)
    requires
        part.len() > 0,
        part[0] == '/',
    ensures
        joined(base, part) == part,
{
}

/// A separator at the end of a path that is not empty, alone or with a `.` behind it, does not
/// change the last component. The empty path has none, and that of the root is the root.
pub proof fn law_trailing_separators_do_not_count(path: Seq<char>)
    ensures
        path.len() > 0 ==> last_component(path.push('/')) == last_component(path),
        path.len() > 0 ==> last_component(path.push('/').push('.')) == last_component(path),
        last_component(Seq::<char>::empty()) is None,
        last_component(seq!['/']) == Some(seq!['/']),
        path.len() > 0 ==> last_component(path) is Some,
{
    let slashed = path.push('/');
    let dotted = slashed.push('.');
    let n = path.len() as int;
    lemma_component_end_of_prefix(path, slashed, n);
    lemma_component_end_of_prefix(path, dotted, n);
    lemma_component_end_bound(path, n);
    let end = component_end(path, n);
    lemma_segment_of_prefix(path, slashed, end);
    lemma_segment_of_prefix(path, dotted, end);
    lemma_segment_start(path, end);
    assert(segment_start(slashed, n + 1) == n + 1);
    lemma_segment_is(dotted, n + 1, n + 2);
    if n > 0 {
        assert(component_end(slashed, n + 1) == component_end(slashed, n));
        assert(component_end(dotted, n + 2) == component_end(dotted, n));
        if end > 0 {
            assert(slashed.subrange(segment_start(path, end), end) =~= path.subrange(
                segment_start(path, end),
                end,
            ));
            assert(dotted.subrange(segment_start(path, end), end) =~= path.subrange(
                segment_start(path, end),
                end,
            ));
        }
    }
    let root = seq!['/'];
    assert(segment_start(root, 1) == 1);
    assert(segment_start(root, 0) == 0);
    assert(component_end(root, 0) == 0);
    assert(component_end(root, 1) == 0);
}

proof fn lemma_component_end_bound(path: Seq<char>, end: int)
    requires
        0 <= end,
    ensures
        0 <= component_end(path, end) <= end,
    decreases end,
{
    lemma_segment_start(path, end);
    let start = segment_start(path, end);
    if start > 0 && (start == end || (start == end - 1 && path[start] == '.')) {
        lemma_component_end_bound(path, start - 1);
    }
}

proof fn lemma_segment_of_prefix(path: Seq<char>, longer: Seq<char>, end: int)
    requires
        0 <= end <= path.len() <= longer.len(),
        forall|i: int| 0 <= i < path.len() ==> path[i] == #[trigger] longer[i],
    ensures
        segment_start(path, end) == segment_start(longer, end),
    decreases end,
{
    if end > 0 {
        assert(path[end - 1] == longer[end - 1]);
        lemma_segment_of_prefix(path, longer, end - 1);
    }
}

proof fn lemma_component_end_of_prefix(path: Seq<char>, longer: Seq<char>, end: int)
    requires
        0 <= end <= path.len() <= longer.len(),
        forall|i: int| 0 <= i < path.len() ==> path[i] == #[trigger] longer[i],
    ensures
        component_end(path, end) == component_end(longer, end),
    decreases end,
{
    lemma_segment_of_prefix(path, longer, end);
    lemma_segment_start(path, end);
    let start = segment_start(path, end);
    if start < end {
        assert(path[start] == longer[start]);
    }
    if start > 0 && (start == end || (start == end - 1 && path[start] == '.')) {
        lemma_component_end_of_prefix(path, longer, start - 1);
    }
}

/// An extension is added to the whole path where that ends in an ordinary name, after a dot, and
/// an empty one changes nothing. A path that ends in `..` stays as it is.
pub proof fn law_extension_is_added(base: Seq<char>, name: Seq<char>, extension: Seq<char>)
    requires
        name.len() > 0,
        !name.contains('/'),
        name != seq!['.'],
    ensures
        ({
            let path = joined(base, name);
            &&& extended(path, Seq::<char>::empty()) == path
            &&& name == seq!['.', '.'] ==> extended(path, extension) == path
            &&& name != seq!['.', '.'] && extension.len() > 0 ==> {
                &&& extended(path, extension).len() == path.len() + 1 + extension.len()
                &&& extended(path, extension).take(path.len() as int) == path
                &&& extended(path, extension)[path.len() as int] == '.'
                &&& extended(path, extension).skip(path.len() as int + 1) == extension
            }
        }),
{
    law_joined_name_is_last(base, name);
    if name != seq!['.', '.'] && extension.len() > 0 {
        law_stored_path(base, name, extension);
    }
}

} // verus!
