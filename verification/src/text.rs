//! Text building blocks: single-pass placeholder substitution, space-joining
//! of word lists, and small concatenation helpers used to derive on-disk paths
//! and command arguments.

use vstd::prelude::*;

verus! {

/// `text` with every non-overlapping occurrence of `pattern`, scanned left to
/// right, replaced by `replacement`. Positions where no occurrence starts are
/// kept literally, so text without the pattern comes through unchanged.
pub open spec fn replace_spec(text: Seq<char>, pattern: Seq<char>, replacement: Seq<char>) -> Seq<char>
    decreases text.len(),
{
    if pattern.len() == 0 || text.len() < pattern.len() {
        text
    } else if text.subrange(0, pattern.len() as int) == pattern {
        replacement + replace_spec(text.skip(pattern.len() as int), pattern, replacement)
    } else {
        seq![text[0]] + replace_spec(text.skip(1), pattern, replacement)
    }
}

/// Where no occurrence of the pattern starts at the head of the text,
/// substitution keeps the head character and goes on with the rest.
proof fn lemma_replace_step_nomatch(text: Seq<char>, pattern: Seq<char>, replacement: Seq<char>)
    requires
        pattern.len() >= 1,
        text.len() >= 1,
        text.len() < pattern.len() || text.subrange(0, pattern.len() as int) != pattern,
    ensures
        replace_spec(text, pattern, replacement) == seq![text[0]] + replace_spec(
            text.skip(1),
            pattern,
            replacement,
        ),
{
    if text.len() < pattern.len() {
        assert(replace_spec(text, pattern, replacement) == text);
        assert(text.skip(1).len() < pattern.len());
        assert(replace_spec(text.skip(1), pattern, replacement) == text.skip(1));
        assert(text =~= seq![text[0]] + text.skip(1));
    }
}

/// A text in which the pattern never occurs is left unchanged by substitution.
pub proof fn lemma_replace_absent(text: Seq<char>, pattern: Seq<char>, replacement: Seq<char>)
    requires
        pattern.len() >= 1,
        forall|i: int|
            0 <= i <= text.len() - pattern.len() ==> #[trigger] text.subrange(
                i,
                i + pattern.len() as int,
            ) != pattern,
    ensures
        replace_spec(text, pattern, replacement) == text,
    decreases text.len(),
{
    if text.len() >= pattern.len() {
        assert(text.subrange(0, 0 + pattern.len() as int) != pattern);
        assert forall|i: int| 0 <= i <= text.skip(1).len() - pattern.len() implies #[trigger] text
            .skip(1)
            .subrange(i, i + pattern.len() as int) != pattern by {
            assert(text.skip(1).subrange(i, i + pattern.len() as int) =~= text.subrange(
                i + 1,
                i + 1 + pattern.len() as int,
            ));
        }
        lemma_replace_absent(text.skip(1), pattern, replacement);
        assert(text =~= seq![text[0]] + text.skip(1));
    }
}

/// Whether `pattern` occurs in `text` starting at position `at`.
fn matches_at(text: &str, at: usize, pattern: &str) -> (b: bool)
    requires
        at + pattern@.len() <= text@.len(),
        text@.len() <= usize::MAX,
    ensures
        b == (text@.subrange(at as int, at as int + pattern@.len() as int) == pattern@),
{
    let p: usize = pattern.unicode_len();
    let mut j: usize = 0;
    while j < p
        invariant
            0 <= j <= p,
            p as nat == pattern@.len(),
            at + p <= text@.len(),
            text@.len() <= usize::MAX,
            forall|k: int| 0 <= k < j ==> text@[at + k] == pattern@[k],
        decreases p - j,
    {
        if text.get_char(at + j) != pattern.get_char(j) {
            assert(text@.subrange(at as int, at as int + pattern@.len() as int)[j as int]
                != pattern@[j as int]);
            return false;
        }
        j = j + 1;
    }
    assert(text@.subrange(at as int, at as int + pattern@.len() as int) =~= pattern@);
    true
}

/// Replaces every non-overlapping occurrence of `pattern` in `text`, scanning
/// left to right, by `replacement`. Text without the pattern is returned
/// unchanged, and so is every text when the pattern is empty.
pub fn replace_all(text: &str, pattern: &str, replacement: &str) -> (out: String)
    ensures
        out@ == replace_spec(text@, pattern@, replacement@),
{
    let n: usize = text.unicode_len();
    let p: usize = pattern.unicode_len();
    if p == 0 {
        return text.to_owned();
    }
    let mut out = String::new();
    let mut i: usize = 0;
    proof {
        assert(text@.skip(0) =~= text@);
        assert(Seq::<char>::empty() + replace_spec(text@, pattern@, replacement@) =~= replace_spec(
            text@,
            pattern@,
            replacement@,
        ));
    }
    while i < n
        invariant
            0 <= i <= n,
            n as nat == text@.len(),
            p as nat == pattern@.len(),
            p >= 1,
            out@ + replace_spec(text@.skip(i as int), pattern@, replacement@) == replace_spec(
                text@,
                pattern@,
                replacement@,
            ),
        decreases n - i,
    {
        let ghost remaining = text@.skip(i as int);
        if p <= n - i && matches_at(text, i, pattern) {
            out.append(replacement);
            proof {
                assert(remaining.subrange(0, p as int) =~= text@.subrange(
                    i as int,
                    i as int + p as int,
                ));
                assert(remaining.skip(p as int) =~= text@.skip(i as int + p as int));
            }
            i = i + p;
        } else {
            let piece = text.substring_char(i, i + 1);
            out.append(piece);
            proof {
                if p <= n - i {
                    assert(remaining.subrange(0, p as int) =~= text@.subrange(
                        i as int,
                        i as int + p as int,
                    ));
                }
                lemma_replace_step_nomatch(remaining, pattern@, replacement@);
                assert(piece@ =~= seq![remaining[0]]);
                assert(remaining.skip(1) =~= text@.skip(i as int + 1));
            }
            i = i + 1;
        }
    }
    proof {
        assert(text@.skip(n as int) =~= Seq::<char>::empty());
        assert(out@ + Seq::<char>::empty() =~= out@);
    }
    out
}

/// The words of `parts` joined with a single space between neighbours; an
/// empty list joins to the empty text.
pub open spec fn join_spaces_spec(parts: Seq<Seq<char>>) -> Seq<char>
    decreases parts.len(),
{
    if parts.len() == 0 {
        Seq::empty()
    } else if parts.len() == 1 {
        parts[0]
    } else {
        parts[0] + seq![' '] + join_spaces_spec(parts.drop_first())
    }
}

/// Joining one more word appends a space and the word, except to an empty
/// list, which joins to the word alone.
proof fn lemma_join_push(parts: Seq<Seq<char>>, word: Seq<char>)
    ensures
        join_spaces_spec(parts.push(word)) == if parts.len() == 0 {
            word
        } else {
            join_spaces_spec(parts) + seq![' '] + word
        },
    decreases parts.len(),
{
    if parts.len() == 0 {
        assert(parts.push(word)[0] == word);
        assert(join_spaces_spec(parts.push(word)) == word);
    } else if parts.len() == 1 {
        assert(parts.push(word).drop_first() =~= seq![word]);
        assert(join_spaces_spec(seq![word]) == word);
        assert(parts.push(word)[0] == parts[0]);
    } else {
        lemma_join_push(parts.drop_first(), word);
        assert(parts.push(word).drop_first() =~= parts.drop_first().push(word));
        assert(parts.push(word)[0] == parts[0]);
        assert(join_spaces_spec(parts) + seq![' '] + word =~= parts[0] + seq![' '] + (
        join_spaces_spec(parts.drop_first()) + seq![' '] + word));
    }
}

/// Joins the given words with single spaces, as the dependency and argument
/// clauses of a descriptor are written.
pub fn join_spaces(parts: &Vec<String>) -> (out: String)
    ensures
        out@ == join_spaces_spec(parts.deep_view()),
{
    let mut out = String::new();
    let mut i: usize = 0;
    while i < parts.len()
        invariant
            0 <= i <= parts@.len(),
            parts.deep_view().len() == parts@.len(),
            out@ == join_spaces_spec(parts.deep_view().take(i as int)),
        decreases parts@.len() - i,
    {
        if i > 0 {
            out.append(" ");
        }
        out.append(parts[i].as_str());
        proof {
            reveal_strlit(" ");
            assert(" "@ =~= seq![' ']);
            lemma_join_push(parts.deep_view().take(i as int), parts.deep_view()[i as int]);
            assert(parts.deep_view().take(i as int + 1) =~= parts.deep_view().take(i as int).push(
                parts.deep_view()[i as int],
            ));
            assert(parts.deep_view()[i as int] == parts@[i as int]@);
        }
        i = i + 1;
    }
    proof {
        assert(parts.deep_view().take(parts@.len() as int) =~= parts.deep_view());
    }
    out
}

/// A descriptor rendered from its template: the five placeholder tokens
/// substituted in one fixed order. A token that does not occur in the
/// template is simply not substituted, and text that is no token is kept
/// literally.
pub open spec fn render_spec(
    template: Seq<char>,
    name: Seq<char>,
    description: Seq<char>,
    dependencies: Seq<char>,
    path: Seq<char>,
    args: Seq<char>,
) -> Seq<char> {
    replace_spec(
        replace_spec(
            replace_spec(
                replace_spec(
                    replace_spec(template, "{Name}"@, name),
                    "{Description}"@,
                    description,
                ),
                "{Dependencies}"@,
                dependencies,
            ),
            "{Path}"@,
            path,
        ),
        "{Args}"@,
        args,
    )
}

/// Renders a descriptor from `template`, substituting the name, the
/// description, the dependency list and the argument list (each list joined
/// with single spaces) and the executable path for their placeholder tokens.
pub fn render_template(
    template: &str,
    name: &str,
    description: &str,
    dependencies: &Vec<String>,
    exe_path: &str,
    args: &Vec<String>,
) -> (r: String)
    ensures
        r@ == render_spec(
            template@,
            name@,
            description@,
            join_spaces_spec(dependencies.deep_view()),
            exe_path@,
            join_spaces_spec(args.deep_view()),
        ),
{
    let deps = join_spaces(dependencies);
    let argtext = join_spaces(args);
    let step_name = replace_all(template, "{Name}", name);
    let step_description = replace_all(step_name.as_str(), "{Description}", description);
    let step_dependencies = replace_all(step_description.as_str(), "{Dependencies}", deps.as_str());
    let step_path = replace_all(step_dependencies.as_str(), "{Path}", exe_path);
    replace_all(step_path.as_str(), "{Args}", argtext.as_str())
}

/// The two words as one argument vector.
pub fn argv2(a: &str, b: &str) -> (v: Vec<String>)
    ensures
        v.deep_view() == seq![a@, b@],
{
    let mut v: Vec<String> = Vec::new();
    v.push(a.to_owned());
    v.push(b.to_owned());
    proof {
        assert(v.deep_view() =~= seq![a@, b@]);
    }
    v
}

/// The three words as one argument vector.
pub fn argv3(a: &str, b: &str, c: &str) -> (v: Vec<String>)
    ensures
        v.deep_view() == seq![a@, b@, c@],
{
    let mut v: Vec<String> = Vec::new();
    v.push(a.to_owned());
    v.push(b.to_owned());
    v.push(c.to_owned());
    proof {
        assert(v.deep_view() =~= seq![a@, b@, c@]);
    }
    v
}

/// The two pieces run together as one text.
pub fn concat2(a: &str, b: &str) -> (r: String)
    ensures
        r@ == a@ + b@,
{
    let mut s = a.to_owned();
    s.append(b);
    s
}

/// The three pieces run together as one text.
pub fn concat3(a: &str, b: &str, c: &str) -> (r: String)
    ensures
        r@ == a@ + b@ + c@,
{
    let mut s = a.to_owned();
    s.append(b);
    s.append(c);
    s
}

} // verus!
