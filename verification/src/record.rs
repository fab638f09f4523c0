//! The application record and its renderer: the collected fields, and the
//! fixed-schema configuration-file text made from them.

use vstd::prelude::*;
use crate::repo::url_normalize;
use crate::repo::validate_repo;
use crate::text::join;
use crate::text::join_with;
use crate::text::split_at;
use crate::text::split_on;
use crate::text::trim_line;
use crate::text::trim_spec;
use crate::version::verify_version;
use crate::version::version_valid;

verus! {

/// The collected application metadata, immutable once built and rendered at
/// once.
#[derive(Debug)]
pub struct App {
    /// Application name.
    pub name: String,
    /// Repository link, already in the URL parser's normalized form.
    pub repo: String,
    /// Version text, kept verbatim as the operator supplied it.
    pub version: String,
    /// Author entries, split at commas and trimmed.
    pub authors: Vec<String>,
    /// Free-text description.
    pub description: String,
    /// Path to the icon file, kept as text and not checked for existence.
    pub icon: String,
    /// Other metadata entries, split at commas and not trimmed.
    pub other_metadata: Vec<String>,
}

/// The rendered text up to and including the name line.
pub open spec fn render_before_repo(app: App) -> Seq<char> {
    "[app]\nname = \""@ + app.name@ + "\"\n"@
}

/// The rendered repo line carrying the given link text.
pub open spec fn repo_line(repo: Seq<char>) -> Seq<char> {
    "repo = \""@ + repo + "\"\n"@
}

/// The rendered text after the repo line: version, author list (one quoted
/// entry holding all authors joined with a comma and a space), description,
/// icon, and the bracketed other-metadata text.
pub open spec fn render_after_repo(app: App) -> Seq<char> {
    "version = \""@ + app.version@ + "\"\nauthor = [\""@ + join_with(
        app.authors.deep_view(),
        ", "@,
    ) + "\"]\ndescription = \""@ + app.description@ + "\"\nicon = \""@ + app.icon@
        + "\"\nother_metadata = \"["@ + join_with(app.other_metadata.deep_view(), ","@) + "]\"\n"@
}

/// The whole rendered configuration-file text.
pub open spec fn render_spec(app: App) -> Seq<char> {
    render_before_repo(app) + repo_line(app.repo@) + render_after_repo(app)
}

impl App {
    /// Renders the record into the configuration-file text: the fixed
    /// template, fields in order, no escaping of what the fields hold.
    pub fn construct(&self) -> (r: String)
        ensures
            r@ == render_spec(*self),
    {
        let mut out = String::new();
        out.append("[app]\nname = \"");
        out.append(self.name.as_str());
        out.append("\"\n");
        out.append("repo = \"");
        out.append(self.repo.as_str());
        out.append("\"\n");
        out.append("version = \"");
        out.append(self.version.as_str());
        out.append("\"\nauthor = [\"");
        let authors = join(&self.authors, ", ");
        out.append(authors.as_str());
        out.append("\"]\ndescription = \"");
        out.append(self.description.as_str());
        out.append("\"\nicon = \"");
        out.append(self.icon.as_str());
        out.append("\"\nother_metadata = \"[");
        let other = join(&self.other_metadata, ",");
        out.append(other.as_str());
        out.append("]\"\n");
        proof {
            assert(out@ =~= render_spec(*self));
        }
        out
    }
}

/// Law: a well-formed URL's text is accepted, and the rendered text carries
/// the URL's normalized serialization, and nothing else, as the repo field.
pub proof fn lemma_valid_url_rendered(app: App, raw: Seq<char>)
    requires
        url_normalize(raw) == Some(app.repo@),
    ensures
        render_spec(app) == render_before_repo(app) + repo_line(url_normalize(raw)->Some_0)
            + render_after_repo(app),
{
}

/// Why the record could not be built.
#[derive(Clone, Copy, PartialEq, Eq, Structural, Debug)]
pub enum FieldError {
    /// The repository link does not parse as a well-formed URL.
    BadUrl,
    /// The version text does not have three leading dot-separated numerals.
    BadVersion,
}

/// Splits at commas and trims each entry, as the author field is read.
fn split_and_trim(s: &str) -> (r: Vec<String>)
    ensures
        r.deep_view() == split_at(s@, ',').map_values(|t: Seq<char>| trim_spec(t)),
{
    let parts = split_on(s, ',');
    let mut out: Vec<String> = Vec::new();
    let mut i: usize = 0;
    while i < parts.len()
        invariant
            i <= parts.len(),
            parts.deep_view() == split_at(s@, ','),
            out.deep_view() =~~= parts.deep_view().take(i as int).map_values(
                |t: Seq<char>| trim_spec(t),
            ),
        decreases parts.len() - i,
    {
        let entry = trim_line(parts[i].as_str());
        proof {
            let pv = parts.deep_view();
            let f = |t: Seq<char>| trim_spec(t);
            assert(pv.take((i + 1) as int).drop_last() =~= pv.take(i as int));
            assert(pv.take((i + 1) as int).last() == pv[i as int]);
            assert(pv.take((i + 1) as int).map_values(f) =~~= pv.take(i as int).map_values(f).push(
                trim_spec(pv[i as int]),
            ));
        }
        out.push(entry);
        i += 1;
    }
    proof {
        assert(parts.deep_view().take(parts.len() as int) =~= parts.deep_view());
    }
    out
}

/// Builds the record from the seven raw input lines, in the order the
/// collector prompts for them. Every line is trimmed; the repository link is
/// replaced by its normalized form; authors are split at commas and trimmed
/// per entry; other metadata is split at commas and kept untrimmed. Fails
/// with `BadUrl` exactly when the trimmed link is not a well-formed URL, and
/// with `BadVersion` exactly when the link is fine but the trimmed version
/// text is not accepted.
pub fn build_record(
    name: &str,
    repo: &str,
    version: &str,
    authors: &str,
    description: &str,
    icon: &str,
    other: &str,
) -> (r: Result<App, FieldError>)
    ensures
        r is Ok <==> (url_normalize(trim_spec(repo@)) is Some && version_valid(
            trim_spec(version@),
        )),
        r == Result::<App, FieldError>::Err(FieldError::BadUrl) <==> url_normalize(
            trim_spec(repo@),
        ) is None,
        r == Result::<App, FieldError>::Err(FieldError::BadVersion) <==> (url_normalize(
            trim_spec(repo@),
        ) is Some && !version_valid(trim_spec(version@))),
        r matches Ok(app) ==> {
            &&& app.name@ == trim_spec(name@)
            &&& url_normalize(trim_spec(repo@)) == Some(app.repo@)
            &&& app.version@ == trim_spec(version@)
            &&& app.authors.deep_view() == split_at(trim_spec(authors@), ',').map_values(
                |t: Seq<char>| trim_spec(t),
            )
            &&& app.description@ == trim_spec(description@)
            &&& app.icon@ == trim_spec(icon@)
            &&& app.other_metadata.deep_view() == split_at(trim_spec(other@), ',')
        },
{
    let repo_trimmed = trim_line(repo);
    let repo_normalized = match validate_repo(repo_trimmed.as_str()) {
        Some(u) => u,
        None => {
            return Err(FieldError::BadUrl);
        },
    };
    let version_trimmed = trim_line(version);
    if !verify_version(version_trimmed.as_str()) {
        return Err(FieldError::BadVersion);
    }
    let authors_trimmed = trim_line(authors);
    let other_trimmed = trim_line(other);
    Ok(
        App {
            name: trim_line(name),
            repo: repo_normalized,
            version: version_trimmed,
            authors: split_and_trim(authors_trimmed.as_str()),
            description: trim_line(description),
            icon: trim_line(icon),
            other_metadata: split_on(other_trimmed.as_str(), ','),
        },
    )
}

} // verus!
