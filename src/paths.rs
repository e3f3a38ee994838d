use vstd::prelude::*;
use vstd::string::StringExecFns;

verus! {

/// The character of a decimal digit.
pub open spec fn digit_char(d: nat) -> char {
    if d == 0 { '0' }
    else if d == 1 { '1' }
    else if d == 2 { '2' }
    else if d == 3 { '3' }
    else if d == 4 { '4' }
    else if d == 5 { '5' }
    else if d == 6 { '6' }
    else if d == 7 { '7' }
    else if d == 8 { '8' }
    else { '9' }
}

/// The decimal text of a number, without leading zeros.
pub open spec fn decimal(n: nat) -> Seq<char>
    decreases n,
{
    if n < 10 {
        seq![digit_char(n)]
    } else {
        decimal(n / 10) + seq![digit_char(n % 10)]
    }
}

/// Two path segments joined by a separator.
pub open spec fn joined(a: Seq<char>, b: Seq<char>) -> Seq<char> {
    a + seq!['/'] + b
}

/// The directory of a comic under the download directory.
pub open spec fn comic_dir_of(root: Seq<char>, comic: Seq<char>) -> Seq<char> {
    joined(root, comic)
}

/// The directory of a chapter inside its comic's directory.
pub open spec fn chapter_dir_of(root: Seq<char>, comic: Seq<char>, chapter: Seq<char>) -> Seq<char> {
    joined(comic_dir_of(root, comic), chapter)
}

/// The file that holds a page's bytes: named by the page's index inside its chapter's directory.
pub open spec fn image_path_of(root: Seq<char>, comic: Seq<char>, chapter: Seq<char>, index: nat) -> Seq<char> {
    joined(chapter_dir_of(root, comic, chapter), decimal(index))
}

fn digit_text(d: u32) -> (r: &'static str)
    requires
        d < 10,
    ensures
        r@ == seq![digit_char(d as nat)],
{
    proof {
        reveal_strlit("0");
        reveal_strlit("1");
        reveal_strlit("2");
        reveal_strlit("3");
        reveal_strlit("4");
        reveal_strlit("5");
        reveal_strlit("6");
        reveal_strlit("7");
        reveal_strlit("8");
        reveal_strlit("9");
    }
    if d == 0 { "0" }
    else if d == 1 { "1" }
    else if d == 2 { "2" }
    else if d == 3 { "3" }
    else if d == 4 { "4" }
    else if d == 5 { "5" }
    else if d == 6 { "6" }
    else if d == 7 { "7" }
    else if d == 8 { "8" }
    else { "9" }
}

/// The decimal text of `n`.
pub fn decimal_string(n: u32) -> (r: String)
    ensures
        r@ == decimal(n as nat),
    decreases n,
{
    if n < 10 {
        <String as StringExecFns>::from_str(digit_text(n))
    } else {
        let mut s = decimal_string(n / 10);
        s.append(digit_text(n % 10));
        s
    }
}

/// Joins two path segments with a separator.
pub fn join_paths(a: &str, b: &str) -> (r: String)
    ensures
        r@ == joined(a@, b@),
{
    proof {
        reveal_strlit("/");
    }
    let mut s = <String as StringExecFns>::from_str(a);
    s.append("/");
    s.append(b);
    s
}

/// The directory that holds a comic's chapters.
pub fn comic_dir(root: &str, comic: &str) -> (r: String)
    ensures
        r@ == comic_dir_of(root@, comic@),
{
    join_paths(root, comic)
}

/// The directory that holds a chapter's pages.
pub fn chapter_dir(root: &str, comic: &str, chapter: &str) -> (r: String)
    ensures
        r@ == chapter_dir_of(root@, comic@, chapter@),
{
    let c = comic_dir(root, comic);
    join_paths(c.as_str(), chapter)
}

/// The file a page's bytes are written to.
pub fn get_image_path(root: &str, comic: &str, chapter: &str, index: u32) -> (r: String)
    ensures
        r@ == image_path_of(root@, comic@, chapter@, index as nat),
{
    let d = chapter_dir(root, comic, chapter);
    let name = decimal_string(index);
    join_paths(d.as_str(), name.as_str())
}

/// The output path depends on the download root, the comic, the chapter and the
/// index alone: two computations for the same page give the same path.
pub proof fn lemma_image_path_deterministic(
    root: Seq<char>,
    comic: Seq<char>,
    chapter: Seq<char>,
    index: nat,
    first: Seq<char>,
    second: Seq<char>,
)
    requires
        first == image_path_of(root, comic, chapter, index),
        second == image_path_of(root, comic, chapter, index),
    ensures
        first == second,
{
}

} // verus!
