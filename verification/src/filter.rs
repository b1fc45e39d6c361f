//! Selection of package files by exact filename or by regex pattern.
//!
//! A selector is a closed sum of the two filter kinds; exactly one of
//! them is legal per invocation, and a selector with neither is a
//! configuration error caught at construction, not at call time.
//! Pattern matching searches anywhere in the filename, without
//! anchoring: a pattern anchors itself if desired.

use crate::error::GlabuError;
use crate::models::PackageFileInfo;
use vstd::prelude::*;
use vstd::seq_lib::*;

verus! {

/// Whether the regex engine accepts `pattern` as a valid pattern.
/// This depends on the pattern text alone.
pub uninterp spec fn regex_valid(pattern: Seq<char>) -> bool;

/// Whether the regex compiled from `pattern` matches anywhere in
/// `text`.  This depends on the pattern and the text alone.
pub uninterp spec fn regex_found(pattern: Seq<char>, text: Seq<char>) -> bool;

/// Relies on `regex::Regex::new`: it returns `Ok` exactly on the
/// patterns the engine accepts, deterministically in the pattern text.
#[verifier::external_body]
fn regex_pattern_compiles(pattern: &str) -> (r: bool)
    ensures
        r == regex_valid(pattern@),
{
    regex::Regex::new(pattern).is_ok()
}

/// Relies on `regex::Regex::new` and `regex::Regex::is_match`: the two
/// calls stand in one body because the compiled regex value cannot be
/// spoken about on its own; whether the pattern matches anywhere in
/// `text` is a function of the pattern and the text alone.  On a
/// pattern the engine rejects the answer is `false`.
#[verifier::external_body]
fn regex_search(pattern: &str, text: &str) -> (r: bool)
    ensures
        regex_valid(pattern@) ==> r == regex_found(pattern@, text@),
        !regex_valid(pattern@) ==> r == false,
{
    match regex::Regex::new(pattern) {
        Ok(re) => re.is_match(text),
        Err(_) => false,
    }
}

/// Filters package files by a regex pattern, kept as its source text.
#[derive(Debug)]
pub struct PatternFilter(pub String);

impl PatternFilter {
    /// A pattern filter is well formed when its pattern compiles.
    pub open spec fn wf(&self) -> bool {
        regex_valid(self.0@)
    }

    /// Whether this filter accepts a file name.
    pub open spec fn spec_accepts(&self, file_name: Seq<char>) -> bool {
        regex_found(self.0@, file_name)
    }

    /// Accepts a file exactly when the pattern matches somewhere in
    /// its file name; with a pattern the engine rejects, nothing is
    /// accepted.
    pub fn filter(&self, file: &PackageFileInfo) -> (r: bool)
        ensures
            self.wf() ==> r == self.spec_accepts(file.file_name@),
            !self.wf() ==> r == false,
    {
        regex_search(self.0.as_str(), file.file_name.as_str())
    }
}

/// Filters package files by exact file name.
#[derive(Debug)]
pub struct FilenameFilter(pub String);

impl FilenameFilter {
    /// Whether this filter accepts a file name.
    pub open spec fn spec_accepts(&self, file_name: Seq<char>) -> bool {
        file_name == self.0@
    }

    /// Accepts a file exactly when its file name equals the wanted one.
    pub fn filter(&self, file: &PackageFileInfo) -> (r: bool)
        ensures
            r == self.spec_accepts(file.file_name@),
    {
        file.file_name == self.0
    }
}

/// The closed set of file selectors: a regex pattern or an exact name.
#[derive(Debug)]
pub enum FileSelector {
    Pattern(PatternFilter),
    ExactName(FilenameFilter),
}

impl FileSelector {
    /// A selector is well formed when a pattern selector's pattern
    /// compiles; an exact-name selector always is.
    pub open spec fn wf(&self) -> bool {
        match self {
            FileSelector::Pattern(p) => p.wf(),
            FileSelector::ExactName(_) => true,
        }
    }

    /// Whether this selector accepts a file name.
    pub open spec fn spec_accepts(&self, file_name: Seq<char>) -> bool {
        match self {
            FileSelector::Pattern(p) => p.spec_accepts(file_name),
            FileSelector::ExactName(f) => f.spec_accepts(file_name),
        }
    }

    /// Accepts a file exactly when the underlying filter does.
    pub fn accepts(&self, file: &PackageFileInfo) -> (r: bool)
        ensures
            self.wf() ==> r == self.spec_accepts(file.file_name@),
    {
        match self {
            FileSelector::Pattern(p) => p.filter(file),
            FileSelector::ExactName(f) => f.filter(file),
        }
    }
}

/// Creates a selector from an optional pattern and an optional exact
/// filename.  The pattern takes precedence; providing neither, or a
/// pattern the regex engine rejects, is a configuration error.
pub fn make_filter(pattern: Option<String>, filename: Option<String>) -> (r: Result<
    FileSelector,
    GlabuError,
>)
    ensures
        match r {
            Ok(sel) => sel.wf() && (match pattern {
                Some(p) => regex_valid(p@) && sel == FileSelector::Pattern(PatternFilter(p)),
                None => filename is Some && sel == FileSelector::ExactName(
                    FilenameFilter(filename->0),
                ),
            }),
            Err(e) => {
                match pattern {
                    Some(p) => !regex_valid(p@) && (e matches GlabuError::ConfigurationError {
                        detail,
                    } && detail@ == "invalid file pattern"@),
                    None => filename is None && (e matches GlabuError::ConfigurationError { detail }
                        && detail@ == "Either pattern or filename must be provided"@),
                }
            },
        },
{
    if let Some(p) = pattern {
        if regex_pattern_compiles(p.as_str()) {
            Ok(FileSelector::Pattern(PatternFilter(p)))
        } else {
            Err(
                GlabuError::ConfigurationError {
                    detail: String::from_str("invalid file pattern"),
                },
            )
        }
    } else if let Some(f) = filename {
        Ok(FileSelector::ExactName(FilenameFilter(f)))
    } else {
        Err(
            GlabuError::ConfigurationError {
                detail: String::from_str("Either pattern or filename must be provided"),
            },
        )
    }
}

/// The acceptance predicate of a selector, over whole file records.
pub open spec fn file_accept_pred(sel: FileSelector) -> spec_fn(PackageFileInfo) -> bool {
    |f: PackageFileInfo| sel.spec_accepts(f.file_name@)
}

/// The files a selector keeps, in their original order.
pub open spec fn spec_select(files: Seq<PackageFileInfo>, sel: FileSelector) -> Seq<
    PackageFileInfo,
> {
    files.filter(file_accept_pred(sel))
}

/// Keeps exactly the files the selector accepts, in their original
/// order: with an exact-name selector, the subset whose file name
/// equals the wanted name; with a pattern selector, the subset whose
/// file name the pattern matches somewhere.
pub fn select_files(files: Vec<PackageFileInfo>, selector: &FileSelector) -> (r: Vec<
    PackageFileInfo,
>)
    ensures
        selector.wf() ==> r@ == spec_select(files@, *selector),
        forall|i: int| 0 <= i < r@.len() ==> files@.contains(#[trigger] r@[i]),
{
    let ghost orig = files@;
    let ghost pred = file_accept_pred(*selector);
    let mut rest = files;
    let mut out: Vec<PackageFileInfo> = Vec::new();
    proof {
        assert(orig.take(0) =~= Seq::<PackageFileInfo>::empty());
        reveal_with_fuel(Seq::filter, 2);
        assert(orig.take(0).filter(pred) =~= Seq::<PackageFileInfo>::empty());
    }
    while rest.len() > 0
        invariant
            pred == file_accept_pred(*selector),
            rest.len() <= orig.len(),
            rest@ == orig.skip(orig.len() - rest.len()),
            selector.wf() ==> out@ == orig.take(orig.len() - rest.len()).filter(pred),
            forall|k: int| 0 <= k < out@.len() ==> orig.contains(#[trigger] out@[k]),
        decreases rest.len(),
    {
        let ghost i: int = orig.len() - rest.len();
        let ghost prev = rest@;
        let f = rest.remove(0);
        proof {
            assert(orig.skip(i)[0] == orig[i]);
            assert(f == orig[i]);
        }
        let keep = selector.accepts(&f);
        proof {
            assert(rest@ =~= orig.skip(i + 1));
            if selector.wf() {
                let s1 = seq![f];
                reveal_with_fuel(Seq::filter, 2);
                assert(s1.drop_last() =~= Seq::<PackageFileInfo>::empty());
                assert(s1.filter(pred) =~= (if pred(f) {
                    s1
                } else {
                    Seq::<PackageFileInfo>::empty()
                }));
                Seq::filter_distributes_over_add(orig.take(i), s1, pred);
                assert(orig.take(i + 1) =~= orig.take(i) + s1);
            }
        }
        if keep {
            out.push(f);
            proof {
                assert(orig.contains(f));
            }
        }
        proof {
            if selector.wf() {
                assert(out@ =~= orig.take(i + 1).filter(pred));
            }
        }
    }
    proof {
        assert(orig.take(orig.len() as int) =~= orig);
    }
    out
}

/// Builds the selector and keeps exactly the files it accepts, in
/// their original order.  Providing neither pattern nor filename, or
/// a pattern the regex engine rejects, is the configuration error of
/// `make_filter`, and no file is inspected.
pub fn select_package_files(
    files: Vec<PackageFileInfo>,
    pattern: Option<String>,
    filename: Option<String>,
) -> (r: Result<Vec<PackageFileInfo>, GlabuError>)
    ensures
        r is Ok <==> (pattern matches Some(p) ==> regex_valid(p@)) && (pattern is None
            ==> filename is Some),
        r matches Ok(kept) ==> (match pattern {
            Some(p) => kept@ == spec_select(files@, FileSelector::Pattern(PatternFilter(p))),
            None => filename matches Some(f) && kept@ == spec_select(
                files@,
                FileSelector::ExactName(FilenameFilter(f)),
            ),
        }),
        r matches Err(e) ==> e is ConfigurationError,
{
    match make_filter(pattern, filename) {
        Ok(selector) => Ok(select_files(files, &selector)),
        Err(e) => Err(e),
    }
}

} // verus!
