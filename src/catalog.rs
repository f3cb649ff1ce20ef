use vstd::prelude::*;

verus! {

/// The marker that a file name must hold to count as an image.
pub open spec fn image_marker() -> Seq<char> {
    seq!['.', 'p', 'n', 'g']
}

/// `p` occurs in `s` starting at position `i`.
pub open spec fn occurs_at(s: Seq<char>, p: Seq<char>, i: int) -> bool {
    0 <= i && i + p.len() <= s.len() && s.subrange(i, i + p.len()) == p
}

/// `p` occurs somewhere in `s`.
pub open spec fn occurs_in(s: Seq<char>, p: Seq<char>) -> bool {
    exists|i: int| #[trigger] occurs_at(s, p, i)
}

/// A file name is taken for an image when ".png" occurs anywhere in it.
pub open spec fn is_image_name_spec(name: Seq<char>) -> bool {
    occurs_in(name, image_marker())
}

/// The characters that end a directory in a path.
pub open spec fn is_separator(c: char) -> bool {
    c == '/' || c == '\\'
}

/// What follows the last separator of `path` (all of it where there is none).
pub open spec fn file_name_spec(path: Seq<char>) -> Seq<char>
    decreases path.len(),
{
    if path.len() == 0 {
        Seq::empty()
    } else if is_separator(path.last()) {
        Seq::empty()
    } else {
        file_name_spec(path.drop_last()).push(path.last())
    }
}

/// The file names of `paths` that are taken for images, in the order of `paths`.
pub open spec fn image_list_spec(paths: Seq<Seq<char>>) -> Seq<Seq<char>>
    decreases paths.len(),
{
    if paths.len() == 0 {
        Seq::empty()
    } else {
        let rest = image_list_spec(paths.drop_last());
        let name = file_name_spec(paths.last());
        if is_image_name_spec(name) {
            rest.push(name)
        } else {
            rest
        }
    }
}

/// Whether ".png" occurs in `name`.
pub fn is_image_name(name: &str) -> (r: bool)
    ensures
        r == is_image_name_spec(name@),
{
    let n = name.unicode_len();
    if n < 4 {
        assert forall|j: int| !occurs_at(name@, image_marker(), j) by {}
        return false;
    }
    let mut i: usize = 0;
    while i <= n - 4
        invariant
            n == name@.len(),
            n >= 4,
            i + 4 <= n + 1,
            forall|j: int| 0 <= j < i ==> !occurs_at(name@, image_marker(), j),
        decreases n - i,
    {
        if name.get_char(i) == '.' && name.get_char(i + 1) == 'p' && name.get_char(i + 2) == 'n'
            && name.get_char(i + 3) == 'g' {
            assert(name@.subrange(i as int, i + 4) =~= image_marker());
            assert(occurs_at(name@, image_marker(), i as int));
            return true;
        }
        assert(!occurs_at(name@, image_marker(), i as int)) by {
            if name@.subrange(i as int, i + 4) == image_marker() {
                assert(name@.subrange(i as int, i + 4)[0] == name@[i as int]);
                assert(name@.subrange(i as int, i + 4)[1] == name@[i + 1]);
                assert(name@.subrange(i as int, i + 4)[2] == name@[i + 2]);
                assert(name@.subrange(i as int, i + 4)[3] == name@[i + 3]);
            }
        }
        i = i + 1;
    }
    assert forall|j: int| !occurs_at(name@, image_marker(), j) by {}
    false
}

/// The part of `path` after its last separator.
pub fn file_name(path: &str) -> (r: String)
    ensures
        r@ == file_name_spec(path@),
{
    let n = path.unicode_len();
    let mut k: usize = n;
    assert(path@.subrange(0, n as int) =~= path@);
    assert(path@.subrange(n as int, n as int) =~= Seq::<char>::empty());
    assert(file_name_spec(path@) + Seq::<char>::empty() =~= file_name_spec(path@));
    while k > 0 && !(path.get_char(k - 1) == '/' || path.get_char(k - 1) == '\\')
        invariant
            n == path@.len(),
            k <= n,
            file_name_spec(path@) == file_name_spec(path@.subrange(0, k as int)) + path@.subrange(
                k as int,
                n as int,
            ),
        decreases k,
    {
        let ghost head = path@.subrange(0, k as int);
        assert(head.drop_last() =~= path@.subrange(0, k - 1));
        assert(head.last() == path@[k - 1]);
        assert(path@.subrange(k - 1, n as int) =~= seq![path@[k - 1]] + path@.subrange(
            k as int,
            n as int,
        ));
        assert(file_name_spec(head) == file_name_spec(path@.subrange(0, k - 1)).push(path@[k - 1]));
        assert(file_name_spec(path@.subrange(0, k - 1)).push(path@[k - 1]) + path@.subrange(
            k as int,
            n as int,
        ) =~= file_name_spec(path@.subrange(0, k - 1)) + path@.subrange(k - 1, n as int));
        k = k - 1;
    }
    assert(file_name_spec(path@.subrange(0, k as int)) =~= Seq::<char>::empty());
    let tail = path.substring_char(k, n);
    assert(file_name_spec(path@) =~= tail@);
    String::from_str(tail)
}

/// The views of a list of strings.
pub open spec fn views(v: Seq<String>) -> Seq<Seq<char>> {
    v.map_values(|s: String| s@)
}

/// The file names among `paths` that are taken for images, in the order of `paths`.
pub fn image_list(paths: &Vec<String>) -> (r: Vec<String>)
    ensures
        views(r@) == image_list_spec(views(paths@)),
{
    let mut out: Vec<String> = Vec::new();
    let mut i: usize = 0;
    while i < paths.len()
        invariant
            i <= paths@.len(),
            views(out@) == image_list_spec(views(paths@).take(i as int)),
        decreases paths@.len() - i,
    {
        let name = file_name(paths[i].as_str());
        let keep = is_image_name(name.as_str());
        let ghost before = out@;
        assert(views(paths@).take(i + 1).drop_last() =~= views(paths@).take(i as int));
        assert(views(paths@).take(i + 1).last() == paths@[i as int]@);
        if keep {
            out.push(name);
            assert(views(out@) =~= views(before).push(name@));
        }
        i = i + 1;
    }
    assert(views(paths@).take(i as int) =~= views(paths@));
    out
}

} // verus!
