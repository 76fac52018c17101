//! Deep links into the application: where a link leads and with which
//! parameters.

use vstd::prelude::*;
use crate::transcript::text::str_eq;

verus! {

/// `url::ParseError`, carried as it is: nothing inside it is looked at.
#[verifier::external_type_specification]
#[verifier::external_body]
pub struct ExUrlParseError(url::ParseError);

/// The path of the URL that `text` is, and the pairs of its query in order,
/// where `text` is a URL.
pub uninterp spec fn url_parts(text: Seq<char>) -> Option<(Seq<char>, Seq<(Seq<char>, Seq<char>)>)>;

/// The contents of a list of pairs.
pub open spec fn pairs_view(pairs: Seq<(String, String)>) -> Seq<(Seq<char>, Seq<char>)> {
    pairs.map_values(|p: (String, String)| (p.0@, p.1@))
}

/// `url::Url::parse`, with `Url::path` and `Url::query_pairs` read off the
/// result: the path and the decoded query pairs of `text`. The contract
/// names what is read and says that parsing fails exactly where the text is
/// no URL.
#[verifier::external_body]
fn split_url(text: &str) -> (out: Result<(String, Vec<(String, String)>), url::ParseError>)
    ensures
        match out {
            Ok((path, pairs)) => url_parts(text@) == Some((path@, pairs_view(pairs@))),
            Err(_) => url_parts(text@) is None,
        },
{
    let url = url::Url::parse(text)?;
    let pairs = url.query_pairs().map(|(k, v)| (k.into_owned(), v.into_owned())).collect();
    Ok((url.path().to_string(), pairs))
}

/// The value that `key` has among `pairs`: that of the last pair with that
/// key.
pub open spec fn last_value(pairs: Seq<(Seq<char>, Seq<char>)>, key: Seq<char>) -> Option<
    Seq<char>,
>
    decreases pairs.len(),
{
    if pairs.len() == 0 {
        None
    } else if pairs.last().0 == key {
        Some(pairs.last().1)
    } else {
        last_value(pairs.drop_last(), key)
    }
}

/// Where a deep link leads.
#[derive(Clone, Debug, PartialEq, Eq)]
pub struct Navigate {
    pub path: String,
    /// The query's pairs in order; none where the link has no query. Of
    /// pairs with the same key the last one counts.
    pub search: Option<Vec<(String, String)>>,
}

impl Navigate {
    /// The destination made of a URL's path and query pairs.
    pub fn from_parts(path: String, pairs: Vec<(String, String)>) -> (out: Navigate)
        ensures
            out.path == path,
            out.search == if pairs@.len() == 0 {
                None
            } else {
                Some(pairs)
            },
    {
        let search = if pairs.len() == 0 {
            None
        } else {
            Some(pairs)
        };
        Navigate { path, search }
    }

    /// The pairs of the link's query, in order; none where it has no query.
    pub open spec fn search_pairs(self) -> Seq<(Seq<char>, Seq<char>)> {
        match self.search {
            Some(pairs) => pairs_view(pairs@),
            None => Seq::empty(),
        }
    }

    /// The value of the search parameter `key`: one entry counts for each
    /// key, the last pair that names it.
    pub fn param(&self, key: &str) -> (out: Option<String>)
        ensures
            match out {
                Some(value) => last_value(self.search_pairs(), key@) == Some(value@),
                None => last_value(self.search_pairs(), key@) is None,
            },
    {
        match &self.search {
            None => None,
            Some(pairs) => {
                let ghost all = pairs_view(pairs@);
                let mut i: usize = pairs.len();
                assert(all.take(i as int) =~= all);
                while i > 0
                    invariant
                        i <= pairs.len(),
                        all == pairs_view(pairs@),
                        all == self.search_pairs(),
                        last_value(all, key@) == last_value(all.take(i as int), key@),
                    decreases i,
                {
                    let pair = &pairs[i - 1];
                    proof {
                        assert(all.take(i as int).last() == (pair.0@, pair.1@));
                        assert(all.take(i as int).drop_last() =~= all.take(i - 1));
                    }
                    if str_eq(pair.0.as_str(), key) {
                        return Some(pair.1.clone());
                    }
                    i -= 1;
                }
                assert(all.take(0).len() == 0);
                None
            },
        }
    }

    /// Whether `out` is what reading the deep link `text` gives: the path and
    /// the query pairs of the URL that `text` is, the search being none
    /// where the query has no pairs; and a failure exactly where `text` is
    /// no URL.
    pub open spec fn is_reading_of(text: Seq<char>, out: Result<Navigate, url::ParseError>) -> bool {
        match out {
            Ok(nav) => match url_parts(text) {
                Some((path, pairs)) => {
                    &&& nav.path@ == path
                    &&& match nav.search {
                        Some(found) => pairs.len() > 0 && pairs_view(found@) == pairs,
                        None => pairs.len() == 0,
                    }
                },
                None => false,
            },
            Err(_) => url_parts(text) is None,
        }
    }

    /// Reads a deep link.
    pub fn parse(s: &str) -> (out: Result<Navigate, url::ParseError>)
        ensures
            Self::is_reading_of(s@, out),
    {
        match split_url(s) {
            Ok((path, pairs)) => Ok(Self::from_parts(path, pairs)),
            Err(e) => Err(e),
        }
    }
}

impl std::str::FromStr for Navigate {
    type Err = url::ParseError;

    /// Reads a deep link, as [`Navigate::parse`] does.
    fn from_str(s: &str) -> (out: Result<Self, Self::Err>)
        ensures
            Navigate::is_reading_of(s@, out),
    {
        Navigate::parse(s)
    }
}

} // verus!
