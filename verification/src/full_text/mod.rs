pub mod match_all;
pub mod match_bool_prefix;
pub mod match_phrase;
pub mod match_phrase_prefix;
pub mod mtch;
pub mod multi_match;
pub mod query_string;
pub mod simple_query_string;
pub mod union;
pub mod options;

pub use match_all::{MatchAll, MatchAllView};
pub use match_bool_prefix::{MatchBoolPrefix, MatchBoolPrefixView};
pub use match_phrase::{MatchPhrase, MatchPhraseView};
pub use match_phrase_prefix::{MatchPhrasePrefix, MatchPhrasePrefixView};
pub use mtch::{Match, MatchView};
pub use multi_match::{MultiMatch, MultiMatchView};
pub use query_string::{QueryString, QueryStringView};
pub use simple_query_string::{SimpleQueryString, SimpleQueryStringView};
pub use union::{FullText, FullTextView};
