//! Resolution of candidate URLs against a prefix.

use vstd::prelude::*;
use crate::config::ConfigError;
use crate::parsing::{
    join_url, parse_url, url_join, url_parse, verdict_model, FailureModel, ParseFailure, ParseModel,
};

verus! {

/// What became of one candidate URL.
#[derive(Clone, Debug, PartialEq, Eq)]
pub enum Resolution {
    /// The candidate parses as an absolute URL and stays as it is.
    Absolute,
    /// The candidate is a relative reference; this is its join with the prefix.
    Joined(String),
    /// The candidate could not be resolved and stays as it is; this is the
    /// parser's reason.
    Unresolvable(String),
}

/// A `Resolution` as contracts see it.
pub ghost enum ResolutionModel {
    Absolute,
    Joined(Seq<char>),
    Unresolvable(Seq<char>),
}

impl View for Resolution {
    type V = ResolutionModel;

    open spec fn view(&self) -> ResolutionModel {
        match self {
            Resolution::Absolute => ResolutionModel::Absolute,
            Resolution::Joined(url) => ResolutionModel::Joined(url@),
            Resolution::Unresolvable(reason) => ResolutionModel::Unresolvable(reason@),
        }
    }
}

/// The outcome for a candidate that the parser turned down as a relative
/// reference, given the verdict on its join with the prefix.
pub open spec fn resolution_of_join(joined: ParseModel) -> ResolutionModel {
    match joined {
        Ok(url) => ResolutionModel::Joined(url),
        Err(failure) => ResolutionModel::Unresolvable(failure.message),
    }
}

/// What the parser's verdict on a candidate alone makes of it.
#[derive(Clone, Debug, PartialEq, Eq)]
pub enum CandidateKind {
    /// Already an absolute URL.
    Absolute,
    /// A relative reference, to be joined with the prefix.
    Relative,
    /// Malformed beyond repair; this is the parser's reason.
    Malformed(String),
}

/// A `CandidateKind` as contracts see it.
pub ghost enum CandidateKindModel {
    Absolute,
    Relative,
    Malformed(Seq<char>),
}

impl View for CandidateKind {
    type V = CandidateKindModel;

    open spec fn view(&self) -> CandidateKindModel {
        match self {
            CandidateKind::Absolute => CandidateKindModel::Absolute,
            CandidateKind::Relative => CandidateKindModel::Relative,
            CandidateKind::Malformed(reason) => CandidateKindModel::Malformed(reason@),
        }
    }
}

/// The kind of a candidate, from the parser's verdict on it.
pub open spec fn kind_of(parsed: ParseModel) -> CandidateKindModel {
    match parsed {
        Ok(_) => CandidateKindModel::Absolute,
        Err(failure) => if failure.relative_without_base {
            CandidateKindModel::Relative
        } else {
            CandidateKindModel::Malformed(failure.message)
        },
    }
}

/// The three-way decision: `parsed` is the parser's verdict on the candidate
/// alone, `joined` its verdict on the candidate joined with the prefix.
pub open spec fn resolution(parsed: ParseModel, joined: ParseModel) -> ResolutionModel {
    match kind_of(parsed) {
        CandidateKindModel::Absolute => ResolutionModel::Absolute,
        CandidateKindModel::Relative => resolution_of_join(joined),
        CandidateKindModel::Malformed(reason) => ResolutionModel::Unresolvable(reason),
    }
}

/// The outcome of resolving `candidate` against `prefix`.
pub open spec fn resolve_model(prefix: Seq<char>, candidate: Seq<char>) -> ResolutionModel {
    resolution(url_parse(candidate), url_join(prefix, candidate))
}

/// The URL that stands in the resolved set for `candidate`.
pub open spec fn resolved_text(candidate: Seq<char>, outcome: ResolutionModel) -> Seq<char> {
    match outcome {
        ResolutionModel::Joined(url) => url,
        _ => candidate,
    }
}

/// `candidate` after resolution against `prefix`.
pub open spec fn resolve_text(prefix: Seq<char>, candidate: Seq<char>) -> Seq<char> {
    resolved_text(candidate, resolve_model(prefix, candidate))
}

/// Tells the three kinds of candidate apart by the parser's verdict.
pub fn classify(parsed: Result<String, ParseFailure>) -> (kind: CandidateKind)
    ensures
        kind@ == kind_of(verdict_model(parsed)),
{
    match parsed {
        Ok(_) => CandidateKind::Absolute,
        Err(failure) => {
            if failure.relative_without_base {
                CandidateKind::Relative
            } else {
                CandidateKind::Malformed(failure.message)
            }
        },
    }
}

/// Turns the verdict on a join into the candidate's outcome.
pub fn join_outcome(joined: Result<String, ParseFailure>) -> (outcome: Resolution)
    ensures
        outcome@ == resolution_of_join(verdict_model(joined)),
{
    match joined {
        Ok(url) => Resolution::Joined(url),
        Err(failure) => Resolution::Unresolvable(failure.message),
    }
}

/// Resolves one candidate against the prefix: an absolute URL is kept, a
/// relative reference is joined, anything else is kept with the reason.
pub fn resolve_url(prefix: &str, candidate: &str) -> (outcome: Resolution)
    ensures
        outcome@ == resolve_model(prefix@, candidate@),
{
    match classify(parse_url(candidate)) {
        CandidateKind::Absolute => Resolution::Absolute,
        CandidateKind::Relative => join_outcome(join_url(prefix, candidate)),
        CandidateKind::Malformed(reason) => Resolution::Unresolvable(reason),
    }
}

/// A candidate that was kept although it could not be resolved.
#[derive(Clone, Debug, PartialEq, Eq)]
pub struct UrlWarning {
    /// The candidate, as it was given.
    pub url: String,
    /// The parser's reason.
    pub reason: String,
}

/// A `UrlWarning` as contracts see it.
pub ghost struct WarningModel {
    pub url: Seq<char>,
    pub reason: Seq<char>,
}

impl View for UrlWarning {
    type V = WarningModel;

    open spec fn view(&self) -> WarningModel {
        WarningModel { url: self.url@, reason: self.reason@ }
    }
}

/// The strings of a list, each as its sequence of characters.
pub open spec fn texts(strings: Seq<String>) -> Seq<Seq<char>> {
    Seq::new(strings.len(), |i: int| strings[i]@)
}

/// The warnings of a list, each as its model.
pub open spec fn warning_models(warnings: Seq<UrlWarning>) -> Seq<WarningModel> {
    Seq::new(warnings.len(), |i: int| warnings[i]@)
}

/// The resolved set: every candidate resolved in its place.
pub open spec fn resolved_urls(prefix: Seq<char>, candidates: Seq<Seq<char>>) -> Seq<Seq<char>> {
    Seq::new(candidates.len(), |i: int| resolve_text(prefix, candidates[i]))
}

/// The warnings of a resolution: one for each unresolvable candidate, in the
/// candidates' order.
pub open spec fn warnings_for(prefix: Seq<char>, candidates: Seq<Seq<char>>) -> Seq<WarningModel>
    decreases candidates.len(),
{
    if candidates.len() == 0 {
        Seq::empty()
    } else {
        let before = warnings_for(prefix, candidates.drop_last());
        match resolve_model(prefix, candidates.last()) {
            ResolutionModel::Unresolvable(reason) => before.push(
                WarningModel { url: candidates.last(), reason },
            ),
            _ => before,
        }
    }
}

/// A candidate that parses as an absolute URL stays as it is, whatever the
/// prefix, and gives no warning.
pub proof fn absolute_url_is_kept(prefix: Seq<char>, url: Seq<char>)
    requires
        url_parse(url) is Ok,
    ensures
        resolve_model(prefix, url) == ResolutionModel::Absolute,
        resolve_text(prefix, url) == url,
        warnings_for(prefix, seq![url]) == Seq::<WarningModel>::empty(),
{
    single_candidate_warnings(prefix, url);
}

/// A relative reference whose join with the prefix exists resolves to that
/// join, whatever else the prefix is.
pub proof fn relative_url_is_joined(prefix: Seq<char>, reference: Seq<char>, joined: Seq<char>)
    requires
        url_parse(reference) matches Err(failure) && failure.relative_without_base,
        url_join(prefix, reference) == Ok::<Seq<char>, FailureModel>(joined),
    ensures
        resolve_model(prefix, reference) == ResolutionModel::Joined(joined),
        resolve_text(prefix, reference) == joined,
        warnings_for(prefix, seq![reference]) == Seq::<WarningModel>::empty(),
{
    single_candidate_warnings(prefix, reference);
}

/// Whether the URL that stands for `candidate` after resolution, where it
/// is a join, parses as an absolute URL.
pub open spec fn join_is_absolute(prefix: Seq<char>, candidate: Seq<char>) -> bool {
    resolve_model(prefix, candidate) matches ResolutionModel::Joined(joined) ==> url_parse(joined)
        is Ok
}

/// Whether every join among the resolved candidates parses as an absolute
/// URL.
pub open spec fn joins_are_absolute(prefix: Seq<char>, candidates: Seq<Seq<char>>) -> bool {
    forall|i: int| 0 <= i < candidates.len() ==> join_is_absolute(prefix, #[trigger] candidates[i])
}

/// Resolving a resolved URL again changes nothing, where the join, if the
/// URL is one, parses as an absolute URL. Kept candidates need no such
/// condition.
pub proof fn resolving_twice_changes_nothing(prefix: Seq<char>, candidate: Seq<char>)
    requires
        join_is_absolute(prefix, candidate),
    ensures
        resolve_text(prefix, resolve_text(prefix, candidate)) == resolve_text(prefix, candidate),
{
}

/// Resolving a resolved set again changes nothing, where every join in it
/// parses as an absolute URL.
pub proof fn resolving_all_twice_changes_nothing(prefix: Seq<char>, candidates: Seq<Seq<char>>)
    requires
        joins_are_absolute(prefix, candidates),
    ensures
        resolved_urls(prefix, resolved_urls(prefix, candidates)) == resolved_urls(
            prefix,
            candidates,
        ),
{
    let once = resolved_urls(prefix, candidates);
    assert forall|i: int| 0 <= i < once.len() implies resolve_text(prefix, once[i]) == once[i] by {
        assert(join_is_absolute(prefix, candidates[i]));
        resolving_twice_changes_nothing(prefix, candidates[i]);
    }
    assert(resolved_urls(prefix, once) =~= once);
}

/// A candidate that the parser turns down for another reason than a missing
/// base stays as it is and gives exactly one warning, with the parser's
/// reason.
pub proof fn malformed_url_is_kept(prefix: Seq<char>, candidate: Seq<char>)
    requires
        url_parse(candidate) matches Err(failure) && !failure.relative_without_base,
    ensures
        resolve_text(prefix, candidate) == candidate,
        warnings_for(prefix, seq![candidate]) == seq![
            WarningModel { url: candidate, reason: url_parse(candidate)->Err_0.message },
        ],
{
    single_candidate_warnings(prefix, candidate);
}

/// The warnings for a single candidate: one if it is unresolvable, else none.
proof fn single_candidate_warnings(prefix: Seq<char>, candidate: Seq<char>)
    ensures
        warnings_for(prefix, seq![candidate]) == match resolve_model(prefix, candidate) {
            ResolutionModel::Unresolvable(reason) => seq![
                WarningModel { url: candidate, reason },
            ],
            _ => Seq::<WarningModel>::empty(),
        },
{
    let single = seq![candidate];
    assert(single.drop_last() =~= Seq::<Seq<char>>::empty());
    assert(single.last() == candidate);
    reveal_with_fuel(warnings_for, 2);
    match resolve_model(prefix, candidate) {
        ResolutionModel::Unresolvable(reason) => {
            assert(warnings_for(prefix, single) =~= seq![WarningModel { url: candidate, reason }]);
        },
        _ => {
            assert(warnings_for(prefix, single) =~= Seq::<WarningModel>::empty());
        },
    }
}

/// The lines that hold at least one character, in their order.
pub open spec fn nonempty_lines(lines: Seq<Seq<char>>) -> Seq<Seq<char>>
    decreases lines.len(),
{
    if lines.len() == 0 {
        Seq::empty()
    } else if lines.last().len() == 0 {
        nonempty_lines(lines.drop_last())
    } else {
        nonempty_lines(lines.drop_last()).push(lines.last())
    }
}

/// Whether inline URLs count as supplied: at least one must be there.
pub open spec fn inline_supplied(args_urls: Option<Vec<String>>) -> bool {
    args_urls matches Some(urls) && urls@.len() > 0
}

/// The candidates that the two sources give, where exactly one was supplied:
/// the non-empty lines of the file, or the inline URLs as they are.
pub open spec fn candidates_of(
    file_lines: Option<Vec<String>>,
    args_urls: Option<Vec<String>>,
) -> Option<Seq<Seq<char>>> {
    match file_lines {
        Some(lines) => if inline_supplied(args_urls) {
            None
        } else {
            Some(nonempty_lines(texts(lines@)))
        },
        None => match args_urls {
            Some(urls) => if urls@.len() > 0 {
                Some(texts(urls@))
            } else {
                None
            },
            None => None,
        },
    }
}

/// Resolves every candidate against the prefix, in order. No candidate is
/// dropped; each unresolvable one is reported once.
pub fn apply_prefix(prefix: &str, candidates: &Vec<String>) -> (resolved: (
    Vec<String>,
    Vec<UrlWarning>,
))
    ensures
        resolved.0@.len() == candidates@.len(),
        texts(resolved.0@) == resolved_urls(prefix@, texts(candidates@)),
        warning_models(resolved.1@) == warnings_for(prefix@, texts(candidates@)),
{
    let mut urls: Vec<String> = Vec::new();
    let mut warnings: Vec<UrlWarning> = Vec::new();
    let mut i: usize = 0;
    proof {
        assert(texts(candidates@).take(0) =~= Seq::empty());
        assert(warning_models(warnings@) =~= Seq::empty());
    }
    while i < candidates.len()
        invariant
            i <= candidates.len(),
            urls.len() == i,
            forall|j: int| 0 <= j < i ==> urls[j]@ == resolve_text(prefix@, candidates[j]@),
            warning_models(warnings@) == warnings_for(
                prefix@,
                texts(candidates@).take(i as int),
            ),
        decreases candidates.len() - i,
    {
        let candidate: String = candidates[i].clone();
        let ghost seen = texts(candidates@).take(i as int);
        let ghost next = texts(candidates@).take(i + 1);
        let ghost reported = warning_models(warnings@);
        proof {
            assert(next.drop_last() =~= seen);
            assert(next.last() == candidate@);
        }
        match resolve_url(prefix, candidate.as_str()) {
            Resolution::Absolute => {
                urls.push(candidate);
            },
            Resolution::Joined(url) => {
                urls.push(url);
            },
            Resolution::Unresolvable(reason) => {
                warnings.push(UrlWarning { url: candidate.clone(), reason });
                proof {
                    assert(warning_models(warnings@) =~= reported.push(warnings@.last()@));
                }
                urls.push(candidate);
            },
        }
        i = i + 1;
    }
    proof {
        assert(texts(candidates@).take(i as int) =~= texts(candidates@));
        assert(texts(urls@) =~= resolved_urls(prefix@, texts(candidates@)));
    }
    (urls, warnings)
}

/// Keeps the lines that hold at least one character, in their order.
pub fn candidates_from_lines(lines: &Vec<String>) -> (candidates: Vec<String>)
    ensures
        texts(candidates@) == nonempty_lines(texts(lines@)),
{
    let mut candidates: Vec<String> = Vec::new();
    let mut i: usize = 0;
    proof {
        assert(texts(lines@).take(0) =~= Seq::empty());
        assert(texts(candidates@) =~= Seq::empty());
    }
    while i < lines.len()
        invariant
            i <= lines.len(),
            texts(candidates@) == nonempty_lines(texts(lines@).take(i as int)),
        decreases lines.len() - i,
    {
        let ghost kept = texts(candidates@);
        proof {
            let next = texts(lines@).take(i + 1);
            assert(next.drop_last() =~= texts(lines@).take(i as int));
            assert(next.last() == lines[i as int]@);
        }
        if !lines[i].as_str().is_empty() {
            candidates.push(lines[i].clone());
            proof {
                assert(texts(candidates@) =~= kept.push(lines[i as int]@));
            }
        }
        i = i + 1;
    }
    proof {
        assert(texts(lines@).take(i as int) =~= texts(lines@));
    }
    candidates
}

/// Which of the two URL sources a run reads.
#[derive(Clone, Copy, Debug, PartialEq, Eq, Structural)]
pub enum UrlSource {
    /// The lines of the URL file.
    File,
    /// The URLs given inline.
    Inline,
}

/// Decides the URL source before anything is read: a URL file or at least
/// one inline URL, and not both.
pub fn choose_url_source(file_given: bool, inline_count: usize) -> (choice: Result<
    UrlSource,
    ConfigError,
>)
    ensures
        file_given && inline_count > 0 ==> choice matches Err(ConfigError::ConflictingUrlSources),
        !file_given && inline_count == 0 ==> choice matches Err(ConfigError::MissingUrlSource),
        file_given && inline_count == 0 ==> choice == Ok::<UrlSource, ConfigError>(
            UrlSource::File,
        ),
        !file_given && inline_count > 0 ==> choice == Ok::<UrlSource, ConfigError>(
            UrlSource::Inline,
        ),
        choice matches Err(error) ==> error.is_usage(),
{
    if file_given {
        if inline_count > 0 {
            Err(ConfigError::ConflictingUrlSources)
        } else {
            Ok(UrlSource::File)
        }
    } else if inline_count > 0 {
        Ok(UrlSource::Inline)
    } else {
        Err(ConfigError::MissingUrlSource)
    }
}

/// The prefix as contracts see it.
pub open spec fn prefix_text(url_prefix: Option<&str>) -> Option<Seq<char>> {
    match url_prefix {
        Some(prefix) => Some(prefix@),
        None => None,
    }
}

/// The URL set for the candidates: the candidates themselves without a
/// prefix, each resolved against the prefix with one.
pub open spec fn url_set(prefix: Option<Seq<char>>, candidates: Seq<Seq<char>>) -> Seq<Seq<char>> {
    match prefix {
        Some(text) => resolved_urls(text, candidates),
        None => candidates,
    }
}

/// The warnings for the candidates: none without a prefix.
pub open spec fn url_warnings(prefix: Option<Seq<char>>, candidates: Seq<Seq<char>>) -> Seq<
    WarningModel,
> {
    match prefix {
        Some(text) => warnings_for(text, candidates),
        None => Seq::empty(),
    }
}

/// Builds the URL set. Exactly one source must be supplied: the lines of a
/// URL file, of which the non-empty ones are the candidates, or at least one
/// inline URL. Without a prefix the candidates are the URL set, whatever
/// they hold; with one, every candidate is resolved against it. No prefix
/// is fatal: against one that is no absolute URL the absolute candidates
/// are kept all the same, and each relative one is kept with a warning.
pub fn load_urls(
    url_prefix: Option<&str>,
    file_lines: Option<Vec<String>>,
    args_urls: Option<Vec<String>>,
) -> (outcome: Result<(Vec<String>, Vec<UrlWarning>), ConfigError>)
    ensures
        file_lines is Some && inline_supplied(args_urls) ==> outcome matches Err(
            ConfigError::ConflictingUrlSources,
        ),
        file_lines is None && !inline_supplied(args_urls) ==> outcome matches Err(
            ConfigError::MissingUrlSource,
        ),
        candidates_of(file_lines, args_urls) is Some ==> match outcome {
            Ok((urls, warnings)) => {
                let prefix = prefix_text(url_prefix);
                let candidates = candidates_of(file_lines, args_urls).unwrap();
                &&& urls@.len() == candidates.len()
                &&& texts(urls@) == url_set(prefix, candidates)
                &&& warning_models(warnings@) == url_warnings(prefix, candidates)
            },
            Err(_) => false,
        },
        candidates_of(file_lines, args_urls) is Some && url_prefix is None ==> match outcome {
            Ok((urls, warnings)) => {
                &&& texts(urls@) == candidates_of(file_lines, args_urls).unwrap()
                &&& warnings@.len() == 0
            },
            Err(_) => false,
        },
{
    let inline_count: usize = match &args_urls {
        Some(urls) => urls.len(),
        None => 0,
    };
    let candidates: Vec<String> = match choose_url_source(file_lines.is_some(), inline_count) {
        Err(error) => {
            return Err(error);
        },
        Ok(UrlSource::File) => candidates_from_lines(&file_lines.unwrap()),
        Ok(UrlSource::Inline) => args_urls.unwrap(),
    };
    match url_prefix {
        None => {
            let warnings: Vec<UrlWarning> = Vec::new();
            proof {
                assert(warning_models(warnings@) =~= Seq::empty());
            }
            Ok((candidates, warnings))
        },
        Some(prefix) => Ok(apply_prefix(prefix, &candidates)),
    }
}

} // verus!
