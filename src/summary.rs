use vstd::prelude::*;
use vstd::string::*;

verus! {

/// A value that can describe itself in one line of text.
pub trait Summary {
    /// The text that `summarize` returns.
    spec fn summary_text(&self) -> Seq<char>;

    /// Describes `self` in one line, without side effects.
    fn summarize(&self) -> (r: String)
        ensures
            r@ == self.summary_text(),
    ;
}

/// A news story.
pub struct NewsArticle {
    pub headline: String,
    pub location: String,
    pub author: String,
    pub content: String,
}

impl Summary for NewsArticle {
    /// `"{headline}, by {author} ({location})"`.
    open spec fn summary_text(&self) -> Seq<char> {
        self.headline@ + ", by "@ + self.author@ + " ("@ + self.location@ + ")"@
    }

    /// Describes `self` in one line, without side effects.
    fn summarize(&self) -> (r: String) {
        let mut r = self.headline.clone();
        r.append(", by ");
        r.append(self.author.as_str());
        r.append(" (");
        r.append(self.location.as_str());
        r.append(")");
        r
    }
}

/// A short post on a social network.
pub struct Tweet {
    pub username: String,
    pub content: String,
    pub reply: bool,
    pub retweet: bool,
}

impl Summary for Tweet {
    /// `"{username}: {content}"`.
    open spec fn summary_text(&self) -> Seq<char> {
        self.username@ + ": "@ + self.content@
    }

    /// Describes `self` in one line, without side effects.
    fn summarize(&self) -> (r: String) {
        let mut r = self.username.clone();
        r.append(": ");
        r.append(self.content.as_str());
        r
    }
}

/// The announcement line for `item`: `"Breaking news! {summary}"`.
pub fn breaking_news<S: Summary>(item: &S) -> (r: String)
    ensures
        r@ == "Breaking news! "@ + item.summary_text(),
{
    let mut r = String::from_str("Breaking news! ");
    let s = item.summarize();
    r.append(s.as_str());
    r
}

} // verus!
