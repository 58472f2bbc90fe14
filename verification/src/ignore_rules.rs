//! The project's ignore rules and what they say of a working copy.
//!
//! The rules are compiled and matched by the `ignore` crate. Which root a
//! matcher keeps, which pattern a line gives, whether the patterns compile
//! and what the matcher answers are functions of what is handed to it and of
//! the platform; each has a name here, and what follows is proved.

use crate::error::{validation, AppError};
use crate::status::{entry_views, ItemKind, StatusEntry, StatusModel};
use crate::text::{
    chars_eq, chars_lines, chars_to_string, file_lines, str_chars, string_views,
    trim_start_class, trim_start_in, views, CharClass,
};
use vstd::prelude::*;
use vstd::string::*;

verus! {

/// `ignore::gitignore::Gitignore`: a compiled matcher, opaque here.
#[verifier::external_type_specification]
#[verifier::external_body]
pub struct ExGitignore(ignore::gitignore::Gitignore);

/// `ignore::gitignore::GitignoreBuilder`: a matcher in the making, opaque
/// here.
#[verifier::external_type_specification]
#[verifier::external_body]
pub struct ExGitignoreBuilder(ignore::gitignore::GitignoreBuilder);

/// The platform that a builder lives on: the name of the target that the
/// program was compiled for. Path conventions differ between platforms, and
/// with them what the builder and its matcher do.
pub uninterp spec fn builder_platform(b: ignore::gitignore::GitignoreBuilder) -> Seq<char>;

/// The root that a builder keeps.
pub uninterp spec fn builder_root(b: ignore::gitignore::GitignoreBuilder) -> Seq<char>;

/// The patterns that a builder holds, each as `Glob::original` gives it, in
/// the order in which they were added.
pub uninterp spec fn builder_globs(b: ignore::gitignore::GitignoreBuilder) -> Seq<Seq<char>>;

/// The platform that a matcher lives on: the name of the target that the
/// program was compiled for.
pub uninterp spec fn matcher_platform(g: ignore::gitignore::Gitignore) -> Seq<char>;

/// The root that a matcher keeps.
pub uninterp spec fn matcher_root(g: ignore::gitignore::Gitignore) -> Seq<char>;

/// The patterns that a matcher holds, each as `Glob::original` gives it, in
/// order.
pub uninterp spec fn matcher_globs(g: ignore::gitignore::Gitignore) -> Seq<Seq<char>>;

/// The root that `GitignoreBuilder::new` keeps for the root that it is
/// given: the given root without a leading `./`, where the platform decides
/// what counts as one.
pub uninterp spec fn stored_root(root: Seq<char>, platform: Seq<char>) -> Seq<char>;

/// The pattern that `GitignoreBuilder::add_line` adds for a line of an
/// ignore file, on a builder with the options that `GitignoreBuilder::new`
/// sets: nothing for a comment, for a blank line and for a line that is no
/// valid pattern.
pub uninterp spec fn glob_of_line(line: Seq<char>, platform: Seq<char>) -> Option<Seq<char>>;

/// Whether `GitignoreBuilder::build` succeeds for a builder that holds the
/// given patterns: whether they compile into one matcher.
pub uninterp spec fn matcher_builds(globs: Seq<Seq<char>>, platform: Seq<char>) -> bool;

/// Whether `Gitignore::matched` answers that a path is ignored, for a
/// matcher that keeps the given root and patterns: whether the last pattern
/// that speaks of the path ignores it.
pub uninterp spec fn rules_ignore(
    root: Seq<char>,
    globs: Seq<Seq<char>>,
    path: Seq<char>,
    is_dir: bool,
    platform: Seq<char>,
) -> bool;

/// The patterns of a builder after one more line was offered to it.
pub open spec fn with_line(globs: Seq<Seq<char>>, line: Seq<char>, platform: Seq<char>) -> Seq<
    Seq<char>,
> {
    match glob_of_line(line, platform) {
        Some(glob) => globs.push(glob),
        None => globs,
    }
}

/// The patterns that a builder holds once the first `n` of the lines were
/// offered to it.
pub open spec fn accepted_upto(lines: Seq<Seq<char>>, n: int, platform: Seq<char>) -> Seq<
    Seq<char>,
>
    decreases n,
{
    if n <= 0 || n > lines.len() {
        Seq::empty()
    } else {
        with_line(accepted_upto(lines, n - 1, platform), lines[n - 1], platform)
    }
}

/// The patterns that a builder holds once all the lines were offered to it.
pub open spec fn accepted_globs(lines: Seq<Seq<char>>, platform: Seq<char>) -> Seq<Seq<char>> {
    accepted_upto(lines, lines.len() as int, platform)
}

/// `GitignoreBuilder::new`: a builder for rules that are matched relative
/// to `root`. It keeps the root as `stored_root` names it, and holds no
/// pattern yet.
#[verifier::external_body]
fn new_builder(root: &str) -> (b: ignore::gitignore::GitignoreBuilder)
    ensures
        builder_root(b) == stored_root(root@, builder_platform(b)),
        builder_globs(b) == Seq::<Seq<char>>::empty(),
{
    ignore::gitignore::GitignoreBuilder::new(root)
}

/// `GitignoreBuilder::add_line` with no source path: offers one line of an
/// ignore file. The pattern of the line is added behind those that the
/// builder holds; a line without one leaves the builder as it is, and so does
/// a failure, which comes only for a line that is no valid pattern.
#[verifier::external_body]
fn add_rule_line(builder: &mut ignore::gitignore::GitignoreBuilder, line: &str) -> (r: Result<
    (),
    ignore::Error,
>)
    ensures
        builder_platform(*final(builder)) == builder_platform(*old(builder)),
        builder_root(*final(builder)) == builder_root(*old(builder)),
        builder_globs(*final(builder)) == with_line(
            builder_globs(*old(builder)),
            line@,
            builder_platform(*old(builder)),
        ),
        r is Err ==> glob_of_line(line@, builder_platform(*old(builder))) is None,
{
    builder.add_line(None, line).map(|_| ())
}

/// `GitignoreBuilder::build`: a matcher with the root and the patterns of
/// the builder. It succeeds exactly where the patterns compile into one
/// matcher, which the patterns decide.
#[verifier::external_body]
fn build_matcher(builder: &ignore::gitignore::GitignoreBuilder) -> (r: Result<
    ignore::gitignore::Gitignore,
    ignore::Error,
>)
    ensures
        r is Ok <==> matcher_builds(builder_globs(*builder), builder_platform(*builder)),
        r matches Ok(g) ==> matcher_platform(g) == builder_platform(*builder) && matcher_root(g)
            == builder_root(*builder) && matcher_globs(g) == builder_globs(*builder),
{
    builder.build()
}

/// `Gitignore::matched` and `Match::is_ignore`: whether the matcher ignores
/// the path. The answer is a function of the root and the patterns that the
/// matcher keeps, of the path, of whether it is a directory, and of the
/// platform.
#[verifier::external_body]
fn match_path(matcher: &ignore::gitignore::Gitignore, path: &str, is_dir: bool) -> (ignored: bool)
    ensures
        ignored == rules_ignore(
            matcher_root(*matcher),
            matcher_globs(*matcher),
            path@,
            is_dir,
            matcher_platform(*matcher),
        ),
{
    matcher.matched(path, is_dir).is_ignore()
}

/// The byte-order mark that may open a file.
pub open spec fn byte_order_mark() -> char {
    '\u{feff}'
}

/// The lines of an ignore file as they are offered to the matcher: the
/// first line without leading byte-order marks.
pub open spec fn rule_lines(text: Seq<char>) -> Seq<Seq<char>> {
    let lines = file_lines(text);
    Seq::new(
        lines.len(),
        |i: int|
            if i == 0 {
                trim_start_class(lines[i], CharClass::One(byte_order_mark()))
            } else {
                lines[i]
            },
    )
}

/// The lines of an ignore file as they are offered to the matcher.
pub fn split_rule_lines(text: &str) -> (r: Vec<String>)
    ensures
        string_views(r@) == rule_lines(text@),
{
    let lines = chars_lines(&str_chars(text));
    let mut out: Vec<String> = Vec::new();
    let mut i: usize = 0;
    while i < lines.len()
        invariant
            i <= lines.len(),
            views(lines@) == file_lines(text@),
            string_views(out@) == rule_lines(text@).take(i as int),
        decreases lines.len() - i,
    {
        let item = if i == 0 {
            chars_to_string(&trim_start_in(&lines[i], CharClass::One('\u{feff}')))
        } else {
            chars_to_string(&lines[i])
        };
        let ghost before = out@;
        out.push(item);
        assert(string_views(out@) =~= string_views(before).push(item@));
        i += 1;
    }
    out
}

/// A compiled set of ignore rules, with the root that they were compiled
/// for and the lines that were offered to the matcher.
pub struct IgnoreRuleSet {
    root: String,
    lines: Vec<String>,
    matcher: ignore::gitignore::Gitignore,
}

/// Whether the rules of the given root and patterns ignore each of the
/// files, on the given platform.
pub open spec fn file_verdicts(
    root: Seq<char>,
    globs: Seq<Seq<char>>,
    platform: Seq<char>,
    files: Seq<Seq<char>>,
) -> Seq<bool> {
    Seq::new(files.len(), |k: int| rules_ignore(root, globs, files[k], false, platform))
}

/// What the rules of the given root and patterns say of a probed path on the
/// given platform: whether they ignore the path
/// itself, and which of the files below it they do not ignore.
pub open spec fn assessment_under(
    root: Seq<char>,
    globs: Seq<Seq<char>>,
    platform: Seq<char>,
    probe: ProbeModel,
) -> AssessmentModel {
    assessment_for(
        probe,
        rules_ignore(root, globs, probe.path, probe.is_dir, platform),
        file_verdicts(root, globs, platform, probe.files),
    )
}

/// The assessments of the probed paths, one by one.
pub open spec fn assessments_under(
    root: Seq<char>,
    globs: Seq<Seq<char>>,
    platform: Seq<char>,
    probes: Seq<ProbeModel>,
) -> Seq<AssessmentModel> {
    Seq::new(probes.len(), |i: int| assessment_under(root, globs, platform, probes[i]))
}

/// The models of the probes of `probes`.
pub open spec fn probe_views(probes: Seq<PathProbe>) -> Seq<ProbeModel> {
    probes.map_values(|p: PathProbe| p@)
}

impl IgnoreRuleSet {
    /// The matcher is the one that was built: it keeps what a builder keeps
    /// of the stored root, and the patterns of the stored lines.
    #[verifier::type_invariant]
    spec fn built(&self) -> bool {
        &&& matcher_root(self.matcher) == stored_root(self.root@, matcher_platform(self.matcher))
        &&& matcher_globs(self.matcher) == accepted_globs(
            string_views(self.lines@),
            matcher_platform(self.matcher),
        )
    }

    /// The root that the rules were compiled for.
    pub closed spec fn root_path(&self) -> Seq<char> {
        self.root@
    }

    /// The lines that were offered to the matcher, in order.
    pub closed spec fn offered_lines(&self) -> Seq<Seq<char>> {
        string_views(self.lines@)
    }

    /// The platform that the matcher lives on.
    pub closed spec fn platform(&self) -> Seq<char> {
        matcher_platform(self.matcher)
    }

    /// The root that paths are matched against: what the matcher keeps of
    /// the root that the rules were compiled for.
    pub open spec fn matching_root(&self) -> Seq<char> {
        stored_root(self.root_path(), self.platform())
    }

    /// The patterns of the lines that were offered to the matcher.
    pub open spec fn patterns(&self) -> Seq<Seq<char>> {
        accepted_globs(self.offered_lines(), self.platform())
    }

    /// Whether the rules ignore a path: what the matcher of this root and of
    /// these patterns answers on this platform.
    pub open spec fn verdict(&self, path: Seq<char>, is_dir: bool) -> bool {
        rules_ignore(self.matching_root(), self.patterns(), path, is_dir, self.platform())
    }

    /// What the rules say of a probed path.
    pub open spec fn assessment(&self, probe: ProbeModel) -> AssessmentModel {
        assessment_under(self.matching_root(), self.patterns(), self.platform(), probe)
    }

    /// The root that the rules were compiled for.
    pub fn root(&self) -> (r: &str)
        ensures
            r@ == self.root_path(),
    {
        self.root.as_str()
    }

    /// The lines that were offered to the matcher, in order.
    pub fn lines(&self) -> (r: &Vec<String>)
        ensures
            string_views(r@) == self.offered_lines(),
    {
        &self.lines
    }
}

/// What compiling the rules of the given text for the given root comes to
/// on the given platform: the rule set of that root and of the lines of the
/// text where their patterns compile into one matcher, and the matcher's
/// failure where they do not.
pub open spec fn compiled_as(
    r: Result<IgnoreRuleSet, AppError>,
    root: Seq<char>,
    text: Seq<char>,
    platform: Seq<char>,
) -> bool {
    if matcher_builds(accepted_globs(rule_lines(text), platform), platform) {
        r matches Ok(set) && set.root_path() == root && set.offered_lines() == rule_lines(text)
            && set.platform() == platform
    } else {
        r matches Err(AppError::Ignore(_))
    }
}

/// Compiles the ignore rules of a project. `rules_text` is the content of
/// the ignore-rule file, or nothing where the file does not exist, which is
/// an error. Every line of the file is offered to the matcher in order;
/// lines that are no valid pattern are passed over, as they are when the
/// matcher reads the file itself. With a file the rules are compiled
/// whenever the patterns of its lines make one matcher on the platform that
/// the program runs on; the failure is the matcher's own otherwise.
pub fn build_ignore_matcher(root: &str, rules_text: Option<&str>) -> (r: Result<
    IgnoreRuleSet,
    AppError,
>)
    ensures
        rules_text is None ==> (r matches Err(AppError::Validation(m)) && m@
            == "No gitignore file!"@),
        rules_text matches Some(text) ==> exists|platform: Seq<char>| #[trigger]
            compiled_as(r, root@, text@, platform),
{
    let text = match rules_text {
        Some(text) => text,
        None => {
            return Err(validation("No gitignore file!"));
        },
    };
    let lines = split_rule_lines(text);
    let mut builder = new_builder(root);
    let ghost platform = builder_platform(builder);
    let mut i: usize = 0;
    while i < lines.len()
        invariant
            i <= lines.len(),
            builder_platform(builder) == platform,
            builder_root(builder) == stored_root(root@, platform),
            builder_globs(builder) == accepted_upto(string_views(lines@), i as int, platform),
        decreases lines.len() - i,
    {
        assert(string_views(lines@)[i as int] == lines[i as int]@);
        let _ = add_rule_line(&mut builder, lines[i].as_str());
        i += 1;
    }
    let r = match build_matcher(&builder) {
        Ok(matcher) => Ok(IgnoreRuleSet { root: String::from_str(root), lines, matcher }),
        Err(e) => Err(AppError::Ignore(e)),
    };
    assert(compiled_as(r, root@, text@, platform));
    r
}

/// Whether a walk below an unversioned directory enters an entry of this
/// name: the metadata of version control is never walked.
pub fn build_folder_walker(file_name: &str) -> (keep: bool)
    ensures
        keep == (file_name@ != ".git"@ && file_name@ != ".svn"@),
{
    !crate::text::str_eq(file_name, ".git") && !crate::text::str_eq(file_name, ".svn")
}

/// What was found at a path of the working copy: whether it is a directory
/// and, for a directory, the files below it.
#[derive(Debug)]
pub struct PathProbe {
    pub path: String,
    pub is_dir: bool,
    pub files: Vec<String>,
}

/// What a `PathProbe` holds, as mathematical values.
pub struct ProbeModel {
    pub path: Seq<char>,
    pub is_dir: bool,
    pub files: Seq<Seq<char>>,
}

impl View for PathProbe {
    type V = ProbeModel;

    open spec fn view(&self) -> ProbeModel {
        ProbeModel { path: self.path@, is_dir: self.is_dir, files: string_views(self.files@) }
    }
}

/// What the rules say of a probed path: whether they ignore the path itself,
/// and which of the files below it they do not ignore.
#[derive(Debug)]
pub struct PathAssessment {
    pub path: String,
    pub is_dir: bool,
    pub ignored: bool,
    pub unignored_files: Vec<String>,
}

/// What a `PathAssessment` holds, as mathematical values.
pub struct AssessmentModel {
    pub path: Seq<char>,
    pub is_dir: bool,
    pub ignored: bool,
    pub unignored_files: Seq<Seq<char>>,
}

impl View for PathAssessment {
    type V = AssessmentModel;

    open spec fn view(&self) -> AssessmentModel {
        AssessmentModel {
            path: self.path@,
            is_dir: self.is_dir,
            ignored: self.ignored,
            unignored_files: string_views(self.unignored_files@),
        }
    }
}

/// The models of the assessments of `a`.
pub open spec fn assessment_views(a: Seq<PathAssessment>) -> Seq<AssessmentModel> {
    a.map_values(|x: PathAssessment| x@)
}

/// The files from index `k` on that the rules do not ignore, in order.
/// `ignored[i]` says whether the rules ignore `files[i]`.
pub open spec fn unignored_from(files: Seq<Seq<char>>, ignored: Seq<bool>, k: int) -> Seq<
    Seq<char>,
>
    decreases files.len() - k,
{
    if k < 0 || k >= files.len() {
        Seq::empty()
    } else if k < ignored.len() && ignored[k] {
        unignored_from(files, ignored, k + 1)
    } else {
        seq![files[k]] + unignored_from(files, ignored, k + 1)
    }
}

/// The assessment of a probed path under given verdicts: `ignored` for the
/// path itself, `file_ignored[i]` for the `i`-th file below it.
pub open spec fn assessment_for(probe: ProbeModel, ignored: bool, file_ignored: Seq<bool>)
    -> AssessmentModel {
    AssessmentModel {
        path: probe.path,
        is_dir: probe.is_dir,
        ignored,
        unignored_files: unignored_from(probe.files, file_ignored, 0),
    }
}

/// Every file is left out of `unignored_from` exactly where its verdict is
/// to ignore it: the result is empty if and only if every file is ignored.
pub proof fn lemma_unignored_empty(files: Seq<Seq<char>>, ignored: Seq<bool>, k: int)
    requires
        0 <= k,
        ignored.len() == files.len(),
    ensures
        unignored_from(files, ignored, k).len() == 0 <==> forall|i: int|
            k <= i < files.len() ==> ignored[i],
    decreases files.len() - k,
{
    if k < files.len() {
        lemma_unignored_empty(files, ignored, k + 1);
        if ignored[k] {
            assert forall|i: int| k <= i < files.len() && (forall|j: int|
                k + 1 <= j < files.len() ==> ignored[j]) implies ignored[i] by {}
        }
    }
}

/// The assessment of `probe` under the given verdicts.
pub fn assess_with(probe: &PathProbe, ignored: bool, file_ignored: &Vec<bool>) -> (r:
    PathAssessment)
    ensures
        r@ == assessment_for(probe@, ignored, file_ignored@),
{
    let mut kept: Vec<String> = Vec::new();
    let mut k: usize = 0;
    while k < probe.files.len()
        invariant
            k <= probe.files.len(),
            unignored_from(probe@.files, file_ignored@, 0) == string_views(kept@)
                + unignored_from(probe@.files, file_ignored@, k as int),
        decreases probe.files.len() - k,
    {
        if !(k < file_ignored.len() && file_ignored[k]) {
            let item = probe.files[k].clone();
            kept.push(item);
        }
        k += 1;
    }
    PathAssessment {
        path: probe.path.clone(),
        is_dir: probe.is_dir,
        ignored,
        unignored_files: kept,
    }
}

impl IgnoreRuleSet {
    /// Whether the rules ignore `path`: what the matcher answers.
    fn ignores(&self, path: &str, is_dir: bool) -> (r: bool)
        ensures
            r == self.verdict(path@, is_dir),
    {
        proof {
            use_type_invariant(self);
        }
        match_path(&self.matcher, path, is_dir)
    }

    /// Asks the rules about a probed path and about each file below it.
    pub fn assess(&self, probe: &PathProbe) -> (r: PathAssessment)
        ensures
            r@ == self.assessment(probe@),
    {
        let ignored = self.ignores(probe.path.as_str(), probe.is_dir);
        let mut verdicts: Vec<bool> = Vec::new();
        let mut k: usize = 0;
        while k < probe.files.len()
            invariant
                k <= probe.files.len(),
                verdicts.len() == k,
                forall|j: int|
                    0 <= j < k ==> #[trigger] verdicts[j] == self.verdict(probe@.files[j], false),
            decreases probe.files.len() - k,
        {
            assert(probe@.files[k as int] == probe.files[k as int]@);
            verdicts.push(self.ignores(probe.files[k].as_str(), false));
            k += 1;
        }
        assert(verdicts@ =~= file_verdicts(
            self.matching_root(),
            self.patterns(),
            self.platform(),
            probe@.files,
        ));
        assess_with(probe, ignored, &verdicts)
    }

    /// Asks the rules about each probed path.
    pub fn assess_all(&self, probes: &Vec<PathProbe>) -> (r: Vec<PathAssessment>)
        ensures
            assessment_views(r@) == assessments_under(
                self.matching_root(),
                self.patterns(),
                self.platform(),
                probe_views(probes@),
            ),
    {
        let mut out: Vec<PathAssessment> = Vec::new();
        let mut i: usize = 0;
        while i < probes.len()
            invariant
                i <= probes.len(),
                out.len() == i,
                forall|j: int| 0 <= j < i ==> (#[trigger] out[j])@ == self.assessment(probes[j]@),
            decreases probes.len() - i,
        {
            let a = self.assess(&probes[i]);
            out.push(a);
            i += 1;
        }
        assert(assessment_views(out@) =~= assessments_under(
            self.matching_root(),
            self.patterns(),
            self.platform(),
            probe_views(probes@),
        ));
        out
    }
}

/// The first assessment of `path` from index `k` on.
pub open spec fn find_assessment(a: Seq<AssessmentModel>, path: Seq<char>, k: int) -> Option<
    AssessmentModel,
>
    decreases a.len() - k,
{
    if k < 0 || k >= a.len() {
        None
    } else if a[k].path == path {
        Some(a[k])
    } else {
        find_assessment(a, path, k + 1)
    }
}

/// Whether the rules cover all of a path: they ignore the path itself and,
/// where it is a directory, every file below it.
pub open spec fn covered(x: AssessmentModel) -> bool {
    x.ignored && (x.is_dir ==> x.unignored_files.len() == 0)
}

/// Whether an entry leaves the working copy clean: it is unchanged, or it is
/// outside version control and the rules cover it. A path that was not
/// assessed counts as not covered.
pub open spec fn entry_is_clean(e: StatusModel, a: Seq<AssessmentModel>) -> bool {
    match e.item_kind {
        ItemKind::Normal | ItemKind::Absent | ItemKind::External => true,
        ItemKind::Unversioned | ItemKind::Ignored => match find_assessment(a, e.path, 0) {
            Some(x) => covered(x),
            None => false,
        },
        _ => false,
    }
}

/// Whether a working copy is dirty: some entry does not leave it clean.
pub open spec fn dirty(entries: Seq<StatusModel>, a: Seq<AssessmentModel>) -> bool {
    exists|i: int| 0 <= i < entries.len() && !entry_is_clean(#[trigger] entries[i], a)
}

/// Whether the kind is one of a path outside version control.
pub open spec fn outside_version_control(kind: ItemKind) -> bool {
    kind == ItemKind::Unversioned || kind == ItemKind::Ignored
}

/// The paths from index `i` on that have to be probed: those outside
/// version control.
pub open spec fn probe_paths_from(entries: Seq<StatusModel>, i: int) -> Seq<Seq<char>>
    decreases entries.len() - i,
{
    if i < 0 || i >= entries.len() {
        Seq::empty()
    } else if outside_version_control(entries[i].item_kind) {
        seq![entries[i].path] + probe_paths_from(entries, i + 1)
    } else {
        probe_paths_from(entries, i + 1)
    }
}

/// The paths that the caller has to look at on disk before the rules can be
/// applied: those of the entries outside version control, in order.
pub fn paths_to_probe(entries: &Vec<StatusEntry>) -> (r: Vec<String>)
    ensures
        string_views(r@) == probe_paths_from(entry_views(entries@), 0),
{
    let mut out: Vec<String> = Vec::new();
    let mut i: usize = 0;
    while i < entries.len()
        invariant
            i <= entries.len(),
            probe_paths_from(entry_views(entries@), 0) == string_views(out@) + probe_paths_from(
                entry_views(entries@),
                i as int,
            ),
        decreases entries.len() - i,
    {
        let kind = entries[i].item_kind;
        if kind == ItemKind::Unversioned || kind == ItemKind::Ignored {
            let item = entries[i].path.clone();
            out.push(item);
        }
        i += 1;
    }
    out
}

/// The first assessment of `path`.
pub fn lookup_assessment<'a>(a: &'a Vec<PathAssessment>, path: &str) -> (r: Option<
    &'a PathAssessment,
>)
    ensures
        match r {
            Some(x) => find_assessment(assessment_views(a@), path@, 0) == Some(x@),
            None => find_assessment(assessment_views(a@), path@, 0) is None,
        },
{
    let wanted = str_chars(path);
    let mut k: usize = 0;
    while k < a.len()
        invariant
            k <= a.len(),
            wanted@ == path@,
            find_assessment(assessment_views(a@), path@, 0) == find_assessment(
                assessment_views(a@),
                path@,
                k as int,
            ),
        decreases a.len() - k,
    {
        let have = str_chars(a[k].path.as_str());
        if chars_eq(&have, &wanted) {
            return Some(&a[k]);
        }
        k += 1;
    }
    None
}

/// Whether `entry` leaves the working copy clean under the assessments `a`.
pub fn entry_leaves_clean(entry: &StatusEntry, a: &Vec<PathAssessment>) -> (r: bool)
    ensures
        r == entry_is_clean(entry@, assessment_views(a@)),
{
    match entry.item_kind {
        ItemKind::Normal | ItemKind::Absent | ItemKind::External => true,
        ItemKind::Unversioned | ItemKind::Ignored => match lookup_assessment(
            a,
            entry.path.as_str(),
        ) {
            Some(x) => x.ignored && (!x.is_dir || x.unignored_files.len() == 0),
            None => false,
        },
        _ => false,
    }
}

/// Whether a working copy is dirty under the ignore rules of the given
/// text, compiled for `root` and matched on the given platform.
pub open spec fn dirty_under_rules(
    entries: Seq<StatusModel>,
    probes: Seq<ProbeModel>,
    root: Seq<char>,
    text: Seq<char>,
    platform: Seq<char>,
) -> bool {
    dirty(
        entries,
        assessments_under(
            stored_root(root, platform),
            accepted_globs(rule_lines(text), platform),
            platform,
            probes,
        ),
    )
}

/// What the dirty check of a working copy comes to under the ignore rules of
/// the given text on the given platform: the answer of the rules where their
/// patterns compile into one matcher, and the matcher's failure where they do
/// not.
pub open spec fn dirty_check_as(
    r: Result<bool, AppError>,
    entries: Seq<StatusModel>,
    probes: Seq<ProbeModel>,
    root: Seq<char>,
    text: Seq<char>,
    platform: Seq<char>,
) -> bool {
    if matcher_builds(accepted_globs(rule_lines(text), platform), platform) {
        r == Ok::<bool, AppError>(dirty_under_rules(entries, probes, root, text, platform))
    } else {
        r matches Err(AppError::Ignore(_))
    }
}

/// Whether the working copy is dirty: true unless every entry is unchanged
/// or is outside version control and covered by the ignore rules.
/// `rules_text` is the content of the ignore-rule file, compiled for `root`;
/// `probes` say what was found at the paths outside version control.
/// Without an ignore-rule file there is no answer: that is an error, whatever
/// the entries are. With one, the answer is that of its rules on the platform
/// that the program runs on, and it is owed whenever the patterns of the file
/// compile into one matcher there.
pub fn is_workspace_dirty(
    entries: &Vec<StatusEntry>,
    probes: &Vec<PathProbe>,
    root: &str,
    rules_text: Option<&str>,
) -> (r: Result<bool, AppError>)
    ensures
        rules_text is None ==> (r matches Err(AppError::Validation(m)) && m@
            == "No gitignore file!"@),
        rules_text matches Some(text) ==> exists|platform: Seq<char>| #[trigger]
            dirty_check_as(
                r,
                entry_views(entries@),
                probe_views(probes@),
                root@,
                text@,
                platform,
            ),
{
    let built = build_ignore_matcher(root, rules_text);
    let ghost platform = if rules_text is Some {
        choose|platform: Seq<char>| #[trigger]
            compiled_as(built, root@, rules_text->0@, platform)
    } else {
        Seq::empty()
    };
    match built {
        Ok(rules) => {
            let assessed = rules.assess_all(probes);
            let r = Ok(is_dirty_assessed(entries, &assessed));
            assert(dirty_check_as(
                r,
                entry_views(entries@),
                probe_views(probes@),
                root@,
                rules_text->0@,
                platform,
            ));
            r
        },
        Err(e) => {
            let r = Err(e);
            assert(rules_text matches Some(text) ==> dirty_check_as(
                r,
                entry_views(entries@),
                probe_views(probes@),
                root@,
                text@,
                platform,
            ));
            r
        },
    }
}

/// Whether the working copy is dirty, given what the rules say of its paths
/// outside version control.
pub fn is_dirty_assessed(entries: &Vec<StatusEntry>, a: &Vec<PathAssessment>) -> (r: bool)
    ensures
        r == dirty(entry_views(entries@), assessment_views(a@)),
{
    let mut i: usize = 0;
    while i < entries.len()
        invariant
            i <= entries.len(),
            forall|j: int|
                0 <= j < i ==> entry_is_clean(
                    #[trigger] entry_views(entries@)[j],
                    assessment_views(a@),
                ),
        decreases entries.len() - i,
    {
        assert(entry_views(entries@)[i as int] == entries[i as int]@);
        if !entry_leaves_clean(&entries[i], a) {
            return true;
        }
        i += 1;
    }
    false
}

/// The rules cover a probed path exactly where the matcher ignores the path
/// itself and, for a directory, every file below it: one file below that the
/// matcher does not ignore is enough for the path not to be covered.
pub proof fn lemma_rules_cover(
    root: Seq<char>,
    globs: Seq<Seq<char>>,
    platform: Seq<char>,
    probe: ProbeModel,
)
    ensures
        covered(assessment_under(root, globs, platform, probe)) <==> rules_ignore(
            root,
            globs,
            probe.path,
            probe.is_dir,
            platform,
        ) && (probe.is_dir ==> forall|k: int|
            0 <= k < probe.files.len() ==> #[trigger] file_verdicts(
                root,
                globs,
                platform,
                probe.files,
            )[k]),
        forall|k: int|
            0 <= k < probe.files.len() ==> #[trigger] file_verdicts(
                root,
                globs,
                platform,
                probe.files,
            )[k] == rules_ignore(root, globs, probe.files[k], false, platform),
{
    lemma_unignored_empty(probe.files, file_verdicts(root, globs, platform, probe.files), 0);
}

/// A working copy whose entries are all unchanged (normal, absent or
/// external) is not dirty, whatever the rules say.
pub proof fn lemma_unchanged_entries_are_clean(
    entries: Seq<StatusModel>,
    a: Seq<AssessmentModel>,
)
    requires
        forall|i: int|
            0 <= i < entries.len() ==> {
                let k = (#[trigger] entries[i]).item_kind;
                k == ItemKind::Normal || k == ItemKind::Absent || k == ItemKind::External
            },
    ensures
        !dirty(entries, a),
{
}

/// A working copy whose entries are all unversioned is not dirty where the
/// rules ignore each path and, for a directory, every file below it.
pub proof fn lemma_covered_unversioned_are_clean(
    entries: Seq<StatusModel>,
    a: Seq<AssessmentModel>,
)
    requires
        forall|i: int|
            0 <= i < entries.len() ==> (#[trigger] entries[i]).item_kind == ItemKind::Unversioned
                && (find_assessment(a, entries[i].path, 0) matches Some(x) && covered(x)),
    ensures
        !dirty(entries, a),
{
}

/// One file below an unversioned directory that the rules do not ignore
/// makes the working copy dirty, whatever else it holds: a directory can be
/// ignored and still hold files that are not.
pub proof fn lemma_unignored_descendant_is_dirty(
    entries: Seq<StatusModel>,
    a: Seq<AssessmentModel>,
    i: int,
    probe: ProbeModel,
    ignored: bool,
    file_ignored: Seq<bool>,
    k: int,
)
    requires
        0 <= i < entries.len(),
        entries[i].item_kind == ItemKind::Unversioned,
        probe.is_dir,
        file_ignored.len() == probe.files.len(),
        find_assessment(a, entries[i].path, 0) == Some(
            assessment_for(probe, ignored, file_ignored),
        ),
        0 <= k < probe.files.len(),
        !file_ignored[k],
    ensures
        dirty(entries, a),
{
    lemma_unignored_empty(probe.files, file_ignored, 0);
}

/// An unversioned directory leaves the working copy clean exactly where the
/// rules ignore it and every file below it.
pub proof fn lemma_directory_clean_iff_all_ignored(
    e: StatusModel,
    a: Seq<AssessmentModel>,
    probe: ProbeModel,
    ignored: bool,
    file_ignored: Seq<bool>,
)
    requires
        e.item_kind == ItemKind::Unversioned,
        probe.is_dir,
        file_ignored.len() == probe.files.len(),
        find_assessment(a, e.path, 0) == Some(assessment_for(probe, ignored, file_ignored)),
    ensures
        entry_is_clean(e, a) <==> ignored && forall|k: int|
            0 <= k < probe.files.len() ==> file_ignored[k],
{
    lemma_unignored_empty(probe.files, file_ignored, 0);
}

} // verus!
