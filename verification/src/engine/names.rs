//! Module names, and the paths under which a module's executable is looked for.
use crate::error::{Error, ErrorView};
use crate::text::{char_is_alphanumeric, chars_of, is_ascii_letter_or_digit, string_of};
use vstd::prelude::*;

verus! {

/// The characters that a module name may hold.
pub open spec fn allowed_char(c: char) -> bool {
    char_is_alphanumeric(c) || c == '.' || c == '_'
}

/// Whether two dots stand side by side somewhere in `name`.
pub open spec fn has_double_dot(name: Seq<char>) -> bool {
    exists|i: int| 0 <= i < name.len() - 1 && name[i] == '.' && #[trigger] name[i + 1] == '.'
}

/// The naming rules: not empty, only alphanumeric characters, dots and
/// underscores, no dot at either end, no two dots in a row.
pub open spec fn valid_module_name(name: Seq<char>) -> bool {
    &&& name.len() > 0
    &&& forall|i: int| 0 <= i < name.len() ==> allowed_char(#[trigger] name[i])
    &&& name.first() != '.'
    &&& name.last() != '.'
    &&& !has_double_dot(name)
}

/// Checks a module name against the naming rules and hands it back where it
/// keeps them. Nothing on disk is touched.
pub fn sanitize_module_name(name: &str) -> (r: Result<String, Error>)
    ensures
        valid_module_name(name@) ==> r is Ok && r->Ok_0@ == name@,
        !valid_module_name(name@) ==> r is Err && r->Err_0@ == ErrorView::InvalidModuleName(
            name@,
        ),
        r is Ok ==> free_of_separators(name@) && stays_below_base(name@),
{
    let chars = chars_of(name);
    let n = chars.len();
    if n == 0 || chars[0] == '.' || chars[n - 1] == '.' {
        return Err(Error::InvalidModuleName(name.to_owned()));
    }
    let mut i: usize = 0;
    while i < n
        invariant
            i <= n,
            n == chars.len(),
            chars@ == name@,
            forall|j: int| 0 <= j < i ==> allowed_char(#[trigger] name@[j]),
            forall|j: int| 0 <= j < i ==> (#[trigger] name@[j]) != '/' && name@[j] != '\\',
            forall|j: int| 0 <= j < i - 1 ==> !(name@[j] == '.' && #[trigger] name@[j + 1] == '.'),
        decreases n - i,
    {
        let c = chars[i];
        if !(c.is_alphanumeric() || c == '.' || c == '_') {
            return Err(Error::InvalidModuleName(name.to_owned()));
        }
        if i > 0 && c == '.' && chars[i - 1] == '.' {
            assert(name@[i - 1] == '.' && name@[i - 1 + 1] == '.');
            return Err(Error::InvalidModuleName(name.to_owned()));
        }
        i += 1;
    }
    proof {
        lemma_stays_below_base(name@);
    }
    Ok(name.to_owned())
}

/// A name that is empty, starts or ends with a dot, or holds two dots in a
/// row is rejected; a name made only of alphanumeric characters, dots and
/// underscores that does none of these is accepted.
pub proof fn lemma_module_name_rules(name: Seq<char>)
    ensures
        name.len() == 0 ==> !valid_module_name(name),
        name.len() > 0 && (name.first() == '.' || name.last() == '.') ==> !valid_module_name(
            name,
        ),
        has_double_dot(name) ==> !valid_module_name(name),
        (forall|i: int| 0 <= i < name.len() ==> allowed_char(#[trigger] name[i])) && name.len() > 0
            && name.first() != '.' && name.last() != '.' && !has_double_dot(name)
            ==> valid_module_name(name),
{
}

/// The path of a module below a base directory: its name with each dot
/// turned into a slash.
pub open spec fn relative_path(name: Seq<char>) -> Seq<char> {
    Seq::new(
        name.len(),
        |i: int|
            if name[i] == '.' {
                '/'
            } else {
                name[i]
            },
    )
}

/// `base` and the relative path `rel` as one path: `rel` alone under an empty
/// base, else the two with exactly one slash between them where `base` does
/// not end in one already.
pub open spec fn joined_path(base: Seq<char>, rel: Seq<char>) -> Seq<char> {
    if base.len() == 0 || base.last() == '/' {
        base + rel
    } else {
        base.push('/') + rel
    }
}

/// Where module `name` would lie under `base`.
pub open spec fn candidate_path(base: Seq<char>, name: Seq<char>) -> Seq<char> {
    joined_path(base, relative_path(name))
}

/// Computes `candidate_path`.
pub fn module_path_under(base: &str, name: &str) -> (path: String)
    ensures
        path@ == candidate_path(base@, name@),
{
    let b = chars_of(base);
    let n = chars_of(name);
    let mut path = string_of(&b, 0, b.len());
    if b.len() > 0 && b[b.len() - 1] != '/' {
        path.push('/');
    }
    let ghost prefix = path@;
    let mut i: usize = 0;
    while i < n.len()
        invariant
            i <= n.len(),
            n@ == name@,
            path@ == prefix + relative_path(name@).take(i as int),
        decreases n.len() - i,
    {
        let c = n[i];
        if c == '.' {
            path.push('/');
        } else {
            path.push(c);
        }
        assert(relative_path(name@).take(i + 1) =~= relative_path(name@).take(i as int).push(
            relative_path(name@)[i as int],
        ));
        i += 1;
    }
    path
}

/// The position of the first `true` in `probes`.
pub open spec fn first_hit(probes: Seq<bool>) -> Option<int>
    decreases probes.len(),
{
    if probes.len() == 0 {
        None
    } else {
        match first_hit(probes.drop_last()) {
            Some(k) => Some(k),
            None => if probes.last() {
                Some(probes.len() - 1)
            } else {
                None
            },
        }
    }
}

/// `first_hit` finds a `true`, before it stand only `false`s, and it finds
/// nothing only where there is none.
pub proof fn lemma_first_hit(probes: Seq<bool>)
    ensures
        match first_hit(probes) {
            Some(k) => 0 <= k < probes.len() && probes[k] && forall|j: int|
                0 <= j < k ==> !probes[j],
            None => forall|j: int| 0 <= j < probes.len() ==> !probes[j],
        },
    decreases probes.len(),
{
    if probes.len() > 0 {
        lemma_first_hit(probes.drop_last());
        assert forall|j: int| 0 <= j < probes.len() - 1 implies probes[j] == probes.drop_last()[j] by {}
    }
}

/// One step of the search for a module's executable.
#[derive(Debug, Clone, PartialEq, Eq)]
pub enum PathSearch {
    /// The path to test next: does a file exist there?
    Probe(String),
    /// The module's executable.
    Found(String),
}

pub enum PathSearchView {
    Probe(Seq<char>),
    Found(Seq<char>),
}

impl View for PathSearch {
    type V = PathSearchView;

    open spec fn view(&self) -> PathSearchView {
        match self {
            PathSearch::Probe(p) => PathSearchView::Probe(p@),
            PathSearch::Found(p) => PathSearchView::Found(p@),
        }
    }
}

/// The answers in `probes` that belong to one of the `count` base directories.
pub open spec fn answers(probes: Seq<bool>, count: nat) -> Seq<bool> {
    if probes.len() <= count {
        probes
    } else {
        probes.take(count as int)
    }
}

/// What the search does next, given the base directories in their order and
/// the answers for the first of them: the first directory that holds the
/// module wins, the next one is asked for where none did so far, and the
/// module is not found where every directory was asked in vain.
pub open spec fn search_step(
    bases: Seq<String>,
    name: Seq<char>,
    probes: Seq<bool>,
) -> Result<PathSearchView, ErrorView> {
    if !valid_module_name(name) {
        Err(ErrorView::InvalidModuleName(name))
    } else {
        match first_hit(answers(probes, bases.len())) {
            Some(k) => Ok(PathSearchView::Found(candidate_path(bases[k]@, name))),
            None => if probes.len() < bases.len() {
                Ok(PathSearchView::Probe(candidate_path(bases[probes.len() as int]@, name)))
            } else {
                Err(ErrorView::ModuleNotFound(name))
            },
        }
    }
}

/// Computes `search_step`.
pub fn search_module_path(bases: &Vec<String>, name: &str, probes: &Vec<bool>) -> (r: Result<
    PathSearch,
    Error,
>)
    ensures
        match search_step(bases@, name@, probes@) {
            Ok(step) => r is Ok && r->Ok_0@ == step,
            Err(e) => r is Err && r->Err_0@ == e,
        },
        r is Ok ==> stays_below_base(name@),
{
    match sanitize_module_name(name) {
        Err(e) => Err(e),
        Ok(_) => {
            let ghost known = answers(probes@, bases@.len());
            let mut k: usize = 0;
            while k < probes.len() && k < bases.len()
                invariant
                    k <= probes.len(),
                    k <= bases.len(),
                    valid_module_name(name@),
                    stays_below_base(name@),
                    known == answers(probes@, bases@.len()),
                    first_hit(known.take(k as int)) is None,
                decreases probes.len() - k,
            {
                assert(known.take(k + 1).drop_last() =~= known.take(k as int));
                if probes[k] {
                    proof {
                        lemma_first_hit_prefix(known, k + 1);
                    }
                    return Ok(PathSearch::Found(module_path_under(bases[k].as_str(), name)));
                }
                k += 1;
            }
            assert(known.take(k as int) =~= known);
            if k < bases.len() {
                Ok(PathSearch::Probe(module_path_under(bases[k].as_str(), name)))
            } else {
                Err(Error::ModuleNotFound(name.to_owned()))
            }
        },
    }
}

/// A hit among the first `n` answers is the first hit of them all.
pub proof fn lemma_first_hit_prefix(probes: Seq<bool>, n: int)
    requires
        0 <= n <= probes.len(),
        first_hit(probes.take(n)) is Some,
    ensures
        first_hit(probes) == first_hit(probes.take(n)),
    decreases probes.len() - n,
{
    if n < probes.len() {
        assert(probes.take(n + 1).drop_last() =~= probes.take(n));
        lemma_first_hit_prefix(probes, n + 1);
    } else {
        assert(probes.take(n) =~= probes);
    }
}

/// The first base directory that holds the module wins: the module is found
/// there, whatever the directories after it hold.
pub proof fn lemma_first_match_wins(bases: Seq<String>, name: Seq<char>, probes: Seq<bool>, k: int)
    requires
        valid_module_name(name),
        0 <= k < bases.len(),
        k < probes.len(),
        probes[k],
        forall|j: int| 0 <= j < k ==> !probes[j],
    ensures
        search_step(bases, name, probes) == Ok::<PathSearchView, ErrorView>(
            PathSearchView::Found(candidate_path(bases[k]@, name)),
        ),
{
    let known = answers(probes, bases.len());
    lemma_first_hit(known);
    assert(known[k] == probes[k]);
}

/// A module that no base directory holds is not found.
pub proof fn lemma_absent_everywhere(bases: Seq<String>, name: Seq<char>, probes: Seq<bool>)
    requires
        valid_module_name(name),
        probes.len() >= bases.len(),
        forall|j: int| 0 <= j < bases.len() ==> !probes[j],
    ensures
        search_step(bases, name, probes) == Err::<PathSearchView, ErrorView>(
            ErrorView::ModuleNotFound(name),
        ),
{
    lemma_first_hit(answers(probes, bases.len()));
}

/// A name that breaks the naming rules is rejected whatever is on disk.
pub proof fn lemma_invalid_name_is_never_searched(
    bases: Seq<String>,
    name: Seq<char>,
    probes: Seq<bool>,
)
    requires
        !valid_module_name(name),
    ensures
        search_step(bases, name, probes) == Err::<PathSearchView, ErrorView>(
            ErrorView::InvalidModuleName(name),
        ),
{
}

/// Whether a name holds neither a slash nor a backslash.
pub open spec fn free_of_separators(name: Seq<char>) -> bool {
    forall|i: int| 0 <= i < name.len() ==> (#[trigger] name[i]) != '/' && name[i] != '\\'
}

/// Whether the path of a name below a base directory cannot lead out of it:
/// the path is made of segments with slashes between them, none of the
/// segments is empty or holds a dot or a backslash, and the base stands in
/// front of it with at most one slash between.
pub open spec fn stays_below_base(name: Seq<char>) -> bool {
    let path = relative_path(name);
    &&& path.len() > 0
    &&& forall|i: int| 0 <= i < path.len() ==> (#[trigger] path[i]) != '.' && path[i] != '\\'
    &&& path.first() != '/'
    &&& path.last() != '/'
    &&& forall|i: int| 0 <= i < path.len() - 1 ==> !(path[i] == '/' && #[trigger] path[i + 1] == '/')
    &&& forall|base: Seq<char>|
        #![auto]
        candidate_path(base, name) == base + path || candidate_path(base, name) == base.push('/')
            + path
}

/// A name that keeps the naming rules and holds no separator cannot leave a
/// base directory.
pub proof fn lemma_stays_below_base(name: Seq<char>)
    requires
        valid_module_name(name),
        free_of_separators(name),
    ensures
        stays_below_base(name),
{
    let path = relative_path(name);
    assert forall|i: int| 0 <= i < path.len() - 1 implies !(path[i] == '/' && #[trigger] path[i
        + 1] == '/') by {
        if path[i] == '/' && path[i + 1] == '/' {
            assert(name[i] == '.' && name[i + 1] == '.');
        }
    }
}

/// What the standard library says of the characters of ASCII: alphanumeric
/// among them are the letters and the digits.
pub open spec fn ascii_is_settled() -> bool {
    forall|c: char| c <= '\x7f' ==> char_is_alphanumeric(c) == is_ascii_letter_or_digit(c)
}

/// With that, a name that keeps the naming rules holds no separator, and so
/// cannot leave a base directory.
pub proof fn lemma_valid_name_stays_below_base(name: Seq<char>)
    requires
        ascii_is_settled(),
        valid_module_name(name),
    ensures
        free_of_separators(name),
        stays_below_base(name),
{
    assert forall|i: int| 0 <= i < name.len() implies (#[trigger] name[i]) != '/' && name[i]
        != '\\' by {
        assert(allowed_char(name[i]));
    }
    lemma_stays_below_base(name);
}

} // verus!
