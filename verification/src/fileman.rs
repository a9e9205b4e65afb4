//! The file broker's reading of a request: what it answers to the first line
//! of an HTTP request, and which file it serves.
use vstd::prelude::*;

verus! {

/// What the broker answers to a request line.
#[derive(Debug, PartialEq, Eq)]
pub enum Answer {
    /// The method is not `GET`: status 400.
    UnsupportedMethod,
    /// The line has fewer than three fields: status 400.
    Error,
    /// The target holds two dots in a row: status 420.
    UnsupportedPath,
    /// The file at `path` is served, or nothing if it cannot be read:
    /// status 200.
    File { path: Vec<u8> },
}

/// An answer with the path as a sequence of bytes.
pub enum AnswerView {
    /// The method is not `GET`.
    UnsupportedMethod,
    /// The line has fewer than three fields.
    Error,
    /// The target holds two dots in a row.
    UnsupportedPath,
    /// The file at `path` is served.
    File { path: Seq<u8> },
}

impl View for Answer {
    type V = AnswerView;

    open spec fn view(&self) -> AnswerView {
        match self {
            Answer::UnsupportedMethod => AnswerView::UnsupportedMethod,
            Answer::Error => AnswerView::Error,
            Answer::UnsupportedPath => AnswerView::UnsupportedPath,
            Answer::File { path } => AnswerView::File { path: path@ },
        }
    }
}

/// Index of the first space in `line` at or after `from`, or the length of
/// `line` if there is none.
pub open spec fn field_end(line: Seq<u8>, from: int) -> int
    decreases line.len() - from,
{
    if from >= line.len() {
        line.len() as int
    } else if line[from] == 0x20 {
        from
    } else {
        field_end(line, from + 1)
    }
}

/// The first field of `line`: the method.
pub open spec fn method(line: Seq<u8>) -> Seq<u8> {
    line.subrange(0, field_end(line, 0))
}

/// Whether `line` has three fields or more, fields being what single
/// spaces separate.
pub open spec fn has_three_fields(line: Seq<u8>) -> bool {
    field_end(line, 0) < line.len() && field_end(line, field_end(line, 0) + 1) < line.len()
}

/// The second field of a line with three fields or more: the target.
pub open spec fn target(line: Seq<u8>) -> Seq<u8> {
    line.subrange(field_end(line, 0) + 1, field_end(line, field_end(line, 0) + 1))
}

/// The bytes of `GET`.
pub open spec fn get() -> Seq<u8> {
    seq![0x47u8, 0x45u8, 0x54u8]
}

/// Whether `path` holds two dots in a row.
pub open spec fn has_dot_dot(path: Seq<u8>) -> bool {
    exists|i: int| 0 <= i && i + 1 < path.len() && #[trigger] path[i] == 0x2e && path[i + 1] == 0x2e
}

/// `path` without a slash at its start, if there is one.
pub open spec fn without_slash(path: Seq<u8>) -> Seq<u8> {
    if path.len() > 0 && path[0] == 0x2f {
        path.drop_first()
    } else {
        path
    }
}

/// Whether `path` ends in `?a1`.
pub open spec fn is_rooted(path: Seq<u8>) -> bool {
    &&& path.len() >= 3
    &&& path[path.len() - 3] == 0x3f
    &&& path[path.len() - 2] == 0x61
    &&& path[path.len() - 1] == 0x31
}

/// The path of the file that is served for `target`: a target that ends in
/// `?a1` is taken from the root, without these three bytes; any other is
/// taken from the broker's directory, without up to three slashes at its
/// start.
pub open spec fn served_path(target: Seq<u8>) -> Seq<u8> {
    if is_rooted(target) {
        seq![0x2fu8] + target.subrange(0, target.len() - 3)
    } else {
        without_slash(without_slash(without_slash(target)))
    }
}

/// What the broker answers to `line`.
pub open spec fn answer_for(line: Seq<u8>) -> AnswerView {
    if method(line) != get() {
        AnswerView::UnsupportedMethod
    } else if !has_three_fields(line) {
        AnswerView::Error
    } else if has_dot_dot(target(line)) {
        AnswerView::UnsupportedPath
    } else {
        AnswerView::File { path: served_path(target(line)) }
    }
}

/// Whether the broker has an answer to `line`: a target that it would serve
/// has three bytes or more, and the third from its end does not continue a
/// character of more than one byte.
pub open spec fn answerable(line: Seq<u8>) -> bool {
    answer_for(line) is File ==> {
        &&& target(line).len() >= 3
        &&& !(0x80 <= target(line)[target(line).len() - 3] <= 0xbf)
    }
}

/// Finds the end of the field that starts at `from`.
pub fn find_field_end(line: &[u8], from: usize) -> (end: usize)
    requires
        from <= line@.len(),
    ensures
        end == field_end(line@, from as int),
        from <= end <= line@.len(),
{
    let length: usize = line.len();
    let mut end: usize = from;
    while end < length && line[end] != 0x20
        invariant
            from <= end <= length == line@.len(),
            field_end(line@, end as int) == field_end(line@, from as int),
        decreases length - end,
    {
        end += 1;
    }
    end
}

/// Whether the bytes of `line` from `start` to `end` are `GET`.
pub fn is_get(line: &[u8], start: usize, end: usize) -> (same: bool)
    requires
        start <= end <= line@.len(),
    ensures
        same == (line@.subrange(start as int, end as int) == get()),
{
    if end - start != 3 {
        assert(get().len() == 3);
        return false;
    }
    let same = line[start] == 0x47 && line[start + 1] == 0x45 && line[start + 2] == 0x54;
    proof {
        let field = line@.subrange(start as int, end as int);
        if same {
            assert(field =~= get());
        } else {
            assert(field[0] == line@[start as int]);
            assert(field[1] == line@[start + 1]);
            assert(field[2] == line@[start + 2]);
        }
    }
    same
}

/// Whether the bytes of `line` from `start` to `end` hold two dots in a row.
pub fn find_dot_dot(line: &[u8], start: usize, end: usize) -> (found: bool)
    requires
        start <= end <= line@.len(),
    ensures
        found == has_dot_dot(line@.subrange(start as int, end as int)),
{
    let ghost path = line@.subrange(start as int, end as int);
    let mut at: usize = start;
    while end - at > 1
        invariant
            start <= at <= end <= line@.len(),
            path == line@.subrange(start as int, end as int),
            forall|i: int| 0 <= i < at - start && i + 1 < path.len() ==> !(#[trigger] path[i] == 0x2e
                && path[i + 1] == 0x2e),
        decreases end - at,
    {
        if line[at] == 0x2e && line[at + 1] == 0x2e {
            assert(path[at - start] == 0x2e && path[at - start + 1] == 0x2e);
            return true;
        }
        at += 1;
    }
    false
}

/// The file that is served for the target that `line` holds from `start` to
/// `end`.
pub fn path_for(line: &[u8], start: usize, end: usize) -> (path: Vec<u8>)
    requires
        start <= end <= line@.len(),
        end - start >= 3,
    ensures
        path@ == served_path(line@.subrange(start as int, end as int)),
{
    let ghost target = line@.subrange(start as int, end as int);
    let mut path: Vec<u8> = Vec::new();
    let rooted = line[end - 3] == 0x3f && line[end - 2] == 0x61 && line[end - 1] == 0x31;
    assert(rooted == is_rooted(target));
    let mut at: usize = start;
    let stop: usize = if rooted {
        path.push(0x2f);
        end - 3
    } else {
        if line[at] == 0x2f {
            at += 1;
        }
        if line[at] == 0x2f {
            at += 1;
        }
        if line[at] == 0x2f {
            at += 1;
        }
        end
    };
    let ghost first = at;
    let ghost head = path@;
    while at < stop
        invariant
            first <= at <= stop <= line@.len(),
            path@ == head + line@.subrange(first as int, at as int),
        decreases stop - at,
    {
        path.push(line[at]);
        assert(path@ =~= head + line@.subrange(first as int, at + 1));
        at += 1;
    }
    proof {
        if rooted {
            assert(path@ =~= seq![0x2fu8] + target.subrange(0, target.len() - 3));
        } else {
            lemma_without_slashes(line@, start as int, end as int, first as int);
            assert(path@ =~= line@.subrange(first as int, end as int));
        }
    }
    path
}

/// Dropping up to three slashes from the start of a field leaves the field
/// from the first byte that was not dropped.
pub proof fn lemma_without_slashes(line: Seq<u8>, start: int, end: int, first: int)
    requires
        0 <= start,
        start + 3 <= end <= line.len(),
        first == start + (if line[start] != 0x2f {
            0int
        } else if line[start + 1] != 0x2f {
            1int
        } else if line[start + 2] != 0x2f {
            2int
        } else {
            3int
        }),
    ensures
        without_slash(without_slash(without_slash(line.subrange(start, end)))) == line.subrange(
            first,
            end,
        ),
{
    let target = line.subrange(start, end);
    let once = without_slash(target);
    let twice = without_slash(once);
    let thrice = without_slash(twice);
    if line[start] != 0x2f {
        assert(once =~= target);
        assert(thrice =~= line.subrange(first, end));
    } else {
        assert(once =~= line.subrange(start + 1, end));
        if line[start + 1] != 0x2f {
            assert(twice =~= once);
            assert(thrice =~= line.subrange(first, end));
        } else {
            assert(twice =~= line.subrange(start + 2, end));
            if line[start + 2] != 0x2f {
                assert(thrice =~= twice);
            } else {
                assert(thrice =~= line.subrange(start + 3, end));
            }
        }
    }
}

/// The broker's answer to a request line that it has an answer to.
pub fn resolve(line: &[u8]) -> (answer: Answer)
    requires
        answerable(line@),
    ensures
        answer@ == answer_for(line@),
{
    let length: usize = line.len();
    let method_end = find_field_end(line, 0);
    if !is_get(line, 0, method_end) {
        return Answer::UnsupportedMethod;
    }
    if method_end >= length {
        return Answer::Error;
    }
    let target_end = find_field_end(line, method_end + 1);
    if target_end >= length {
        return Answer::Error;
    }
    if find_dot_dot(line, method_end + 1, target_end) {
        return Answer::UnsupportedPath;
    }
    Answer::File { path: path_for(line, method_end + 1, target_end) }
}

/// Whether the broker has an answer to `line`.
pub fn can_resolve(line: &[u8]) -> (can: bool)
    ensures
        can == answerable(line@),
{
    let length: usize = line.len();
    let method_end = find_field_end(line, 0);
    if !is_get(line, 0, method_end) {
        return true;
    }
    if method_end >= length {
        return true;
    }
    let target_end = find_field_end(line, method_end + 1);
    if target_end >= length {
        return true;
    }
    if find_dot_dot(line, method_end + 1, target_end) {
        return true;
    }
    if target_end - (method_end + 1) < 3 {
        return false;
    }
    let third_last: u8 = line[target_end - 3];
    assert(third_last == target(line@)[target(line@).len() - 3]);
    !(0x80 <= third_last && third_last <= 0xbf)
}

/// The broker's answer to a request line, if it has one.
pub fn try_resolve(line: &[u8]) -> (answer: Option<Answer>)
    ensures
        answerable(line@) ==> answer is Some && answer->0@ == answer_for(line@),
        !answerable(line@) ==> answer is None,
{
    if can_resolve(line) {
        Some(resolve(line))
    } else {
        None
    }
}

/// The status line of an answer.
pub fn status_line(answer: &Answer) -> (line: &'static str)
    ensures
        line@ == match answer {
            Answer::UnsupportedMethod => "HTTP/1.1 400 Unsupported Method"@,
            Answer::Error => "HTTP/1.1 400 Error"@,
            Answer::UnsupportedPath => "HTTP/1.1 420 Unsupported Path"@,
            Answer::File { .. } => "HTTP/1.1 200 OK"@,
        },
{
    match answer {
        Answer::UnsupportedMethod => "HTTP/1.1 400 Unsupported Method",
        Answer::Error => "HTTP/1.1 400 Error",
        Answer::UnsupportedPath => "HTTP/1.1 420 Unsupported Path",
        Answer::File { .. } => "HTTP/1.1 200 OK",
    }
}

} // verus!
