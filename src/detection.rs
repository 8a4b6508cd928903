//! Detecting the editor command and the platform's extra search directories.
//! Reading the environment and running `git` or `brew` is the caller's part;
//! the choices made on what they report are here.
use crate::text::{joined, same_text, slice_of};
use vstd::prelude::*;
use vstd::string::StrSliceExecFns;

verus! {

/// Unicode white space, as `char::is_whitespace` defines it.
pub open spec fn is_space(c: char) -> bool {
    let u = c as u32;
    (0x9 <= u <= 0xd) || u == 0x20 || u == 0x85 || u == 0xa0 || u == 0x1680 || (0x2000 <= u
        <= 0x200a) || u == 0x2028 || u == 0x2029 || u == 0x202f || u == 0x205f || u == 0x3000
}

/// Whether `c` is white space.
pub fn is_space_char(c: char) -> (r: bool)
    ensures
        r == is_space(c),
{
    let u = c as u32;
    (0x9 <= u && u <= 0xd) || u == 0x20 || u == 0x85 || u == 0xa0 || u == 0x1680 || (0x2000 <= u
        && u <= 0x200a) || u == 0x2028 || u == 0x2029 || u == 0x202f || u == 0x205f || u == 0x3000
}

/// The words of `s`: its maximal runs of characters that are not white space.
pub open spec fn words(s: Seq<char>) -> Seq<Seq<char>>
    decreases s.len(),
{
    if s.len() == 0 {
        Seq::empty()
    } else {
        let prev = words(s.drop_last());
        if is_space(s.last()) {
            prev
        } else if s.len() > 1 && !is_space(s[s.len() - 2]) {
            prev.update(prev.len() - 1, prev.last().push(s.last()))
        } else {
            prev.push(seq![s.last()])
        }
    }
}

/// `ws` without the words `--wait`.
pub open spec fn without_wait(ws: Seq<Seq<char>>) -> Seq<Seq<char>>
    decreases ws.len(),
{
    if ws.len() == 0 {
        ws
    } else {
        let rest = without_wait(ws.drop_last());
        if ws.last() == "--wait"@ {
            rest
        } else {
            rest.push(ws.last())
        }
    }
}

pub open spec fn texts(v: Seq<String>) -> Seq<Seq<char>> {
    v.map_values(|s: String| s@)
}

/// The words of `s`, in order.
pub fn split_words(s: &str) -> (r: Vec<String>)
    ensures
        texts(r@) == words(s@),
{
    let n = s.unicode_len();
    let mut out: Vec<String> = Vec::new();
    let mut start: usize = 0;
    let mut in_word = false;
    let mut i: usize = 0;
    while i < n
        invariant
            n == s@.len(),
            i <= n,
            start <= i,
            in_word <==> (i > 0 && !is_space(s@[i - 1])),
            in_word ==> texts(out@).push(s@.subrange(start as int, i as int)) == words(
                s@.subrange(0, i as int),
            ),
            !in_word ==> texts(out@) == words(s@.subrange(0, i as int)),
        decreases n - i,
    {
        let c = s.get_char(i);
        let ghost p = s@.subrange(0, i + 1);
        assert(p.drop_last() =~= s@.subrange(0, i as int));
        assert(p.last() == c);
        if is_space_char(c) {
            if in_word {
                let w = slice_of(s, start, i);
                let ghost before = texts(out@);
                out.push(w);
                assert(texts(out@) =~= before.push(w@));
            }
            in_word = false;
        } else {
            if in_word {
                assert(s@.subrange(start as int, i + 1) =~= s@.subrange(start as int, i as int).push(
                    c,
                ));
                assert(texts(out@).push(s@.subrange(start as int, i + 1)) =~= texts(out@).push(
                    s@.subrange(start as int, i as int),
                ).update(texts(out@).len() as int, s@.subrange(start as int, i + 1)));
            } else {
                start = i;
                assert(s@.subrange(start as int, i + 1) =~= seq![c]);
            }
            in_word = true;
        }
        i = i + 1;
    }
    assert(s@.subrange(0, n as int) =~= s@);
    if in_word {
        let w = slice_of(s, start, n);
        let ghost before = texts(out@);
        out.push(w);
        assert(texts(out@) =~= before.push(w@));
    }
    out
}

/// Why no editor command could be had.
#[derive(Debug, PartialEq, Eq)]
pub enum EditorError {
    /// The editor command holds no word.
    Empty,
    /// No source named an editor.
    Undetermined,
}

/// Splits an editor command into the program and its arguments, dropping
/// `--wait` (the editor is waited for anyway). Fails on a command with no word.
pub fn split_editor_command(editor: &str) -> (r: Result<(String, Vec<String>), EditorError>)
    ensures
        words(editor@).len() == 0 ==> r == Err::<(String, Vec<String>), EditorError>(
            EditorError::Empty,
        ),
        words(editor@).len() > 0 ==> (r matches Ok((program, args)) && program@ == words(editor@)[0]
            && texts(args@) == without_wait(words(editor@).drop_first())),
{
    let ws = split_words(editor);
    let n = ws.len();
    if n == 0 {
        return Err(EditorError::Empty);
    }
    let ghost all = texts(ws@);
    let program = ws[0].clone();
    let mut args: Vec<String> = Vec::new();
    let mut i: usize = 1;
    assert(all.drop_first().subrange(0, 0) =~= Seq::<Seq<char>>::empty());
    while i < n
        invariant
            n == ws@.len(),
            all == texts(ws@),
            1 <= i <= n,
            texts(args@) == without_wait(all.drop_first().subrange(0, i - 1)),
        decreases n - i,
    {
        let ghost part = all.drop_first().subrange(0, i as int);
        assert(part.drop_last() =~= all.drop_first().subrange(0, i - 1));
        assert(part.last() == ws@[i as int]@);
        if !same_text(ws[i].as_str(), "--wait") {
            let ghost before = texts(args@);
            args.push(ws[i].clone());
            assert(texts(args@) =~= before.push(ws@[i as int]@));
        }
        i = i + 1;
    }
    assert(all.drop_first().subrange(0, n - 1) =~= all.drop_first());
    Ok((program, args))
}

/// The first editor command among the sources, in order of preference.
pub open spec fn preferred(sources: Seq<Option<String>>) -> Option<Seq<char>>
    decreases sources.len(),
{
    if sources.len() == 0 {
        None
    } else {
        match sources[0] {
            Some(e) => Some(e@),
            None => preferred(sources.drop_first()),
        }
    }
}

pub open spec fn opt_text_of(s: Option<String>) -> Option<Seq<char>> {
    match s {
        Some(t) => Some(t@),
        None => None,
    }
}

/// Chooses the editor command: the one given as an argument, else git's
/// `core.editor`, else `$VISUAL`, else `$EDITOR`; the first that is set is
/// split into program and arguments.
pub fn choose_editor(
    argument: Option<String>,
    git_core_editor: Option<String>,
    visual: Option<String>,
    editor: Option<String>,
) -> (r: Result<(String, Vec<String>), EditorError>)
    ensures
        ({
            let first = preferred(seq![argument, git_core_editor, visual, editor]);
            &&& first is None ==> r == Err::<(String, Vec<String>), EditorError>(
                EditorError::Undetermined,
            )
            &&& first matches Some(e) ==> (words(e).len() == 0 ==> r == Err::<
                (String, Vec<String>),
                EditorError,
            >(EditorError::Empty))
            &&& first matches Some(e) ==> (words(e).len() > 0 ==> (r matches Ok((program, args))
                && program@ == words(e)[0] && texts(args@) == without_wait(words(e).drop_first())))
        }),
{
    let ghost s4 = seq![editor];
    let ghost s3 = seq![visual, editor];
    let ghost s2 = seq![git_core_editor, visual, editor];
    let ghost s1 = seq![argument, git_core_editor, visual, editor];
    assert(s4.drop_first() =~= Seq::<Option<String>>::empty());
    assert(s3.drop_first() =~= s4);
    assert(s2.drop_first() =~= s3);
    assert(s1.drop_first() =~= s2);
    assert(preferred(Seq::<Option<String>>::empty()) is None);
    assert(s4[0] == editor && s3[0] == visual && s2[0] == git_core_editor && s1[0] == argument);
    assert(preferred(s4) == opt_text_of(editor));
    assert(preferred(s3) == if visual is Some { opt_text_of(visual) } else { preferred(s4) });
    assert(preferred(s2) == if git_core_editor is Some { opt_text_of(git_core_editor) } else { preferred(s3) });
    assert(preferred(s1) == if argument is Some { opt_text_of(argument) } else { preferred(s2) });
    match argument {
        Some(e) => split_editor_command(e.as_str()),
        None => match git_core_editor {
            Some(e) => split_editor_command(e.as_str()),
            None => match visual {
                Some(e) => split_editor_command(e.as_str()),
                None => match editor {
                    Some(e) => split_editor_command(e.as_str()),
                    None => Err(EditorError::Undetermined),
                },
            },
        },
    }
}

/// Where the first `.` at or after `from` stands, or the length where there is none.
pub open spec fn dot_index(version: Seq<char>, from: int) -> int
    decreases version.len() - from,
{
    if from < 0 || from >= version.len() {
        version.len() as int
    } else if version[from] == '.' {
        from
    } else {
        dot_index(version, from + 1)
    }
}

/// The major part of a version: up to the first `.`, or all of it.
pub open spec fn major_version(version: Seq<char>) -> Seq<char> {
    version.subrange(0, dot_index(version, 0))
}

/// The Homebrew formula of the LLVM release that the expected version names.
pub fn homebrew_formula(version: &str) -> (r: String)
    ensures
        r@ == "llvm@"@ + major_version(version@),
{
    let n = version.unicode_len();
    let mut i: usize = 0;
    while i < n
        invariant
            n == version@.len(),
            i <= n,
            dot_index(version@, 0) == dot_index(version@, i as int),
        decreases n - i,
    {
        if version.get_char(i) == '.' {
            let major = slice_of(version, 0, i);
            return joined("llvm@", major.as_str());
        }
        i = i + 1;
    }
    assert(version@.subrange(0, n as int) =~= version@);
    joined("llvm@", version)
}

/// The search path to try beside the inherited one: the inherited directories
/// followed by those the platform discovered; none where nothing was
/// discovered, so that the attempts with an overlay are left out.
pub fn augmented_search_path(current: Vec<String>, discovered: Vec<String>) -> (r: Option<Vec<String>>)
    ensures
        discovered@.len() == 0 ==> r is None,
        discovered@.len() > 0 ==> (r matches Some(p) && p@ == current@ + discovered@),
{
    if discovered.len() == 0 {
        return None;
    }
    let mut all = current;
    let mut more = discovered;
    let ghost a = all@;
    let ghost b = more@;
    all.append(&mut more);
    assert(all@ == a + b);
    Some(all)
}

} // verus!
