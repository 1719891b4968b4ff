pub mod existence;
pub mod fuzzy;
pub mod ids;
pub mod prefix;
pub mod range;
pub mod regexp;
pub mod term;
pub mod terms;
pub mod terms_set;
pub mod wildcard;
pub mod union;

pub use existence::{Exists, ExistsView};
pub use fuzzy::{Fuzzy, FuzzyView};
pub use ids::{Ids, IdsView};
pub use prefix::{Prefix, PrefixView};
pub use range::{Range, RangeView};
pub use regexp::{Regexp, RegexpView};
pub use term::{Term, TermView};
pub use terms::{Terms, TermsView};
pub use terms_set::{
    MinimumShouldMatch, MinimumShouldMatchView, TermsSet, TermsSetBuilder, TermsSetBuilderView,
    TermsSetView,
};
pub use wildcard::{Wildcard, WildcardView};
pub use union::{TermLevel, TermLevelView};
