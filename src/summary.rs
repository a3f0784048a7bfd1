//! One-line summaries of pieces of writing.
use vstd::prelude::*;
use vstd::string::StringExecFns;

verus! {

/// The author named when a piece does not say otherwise.
pub const DEFAULT_AUTHOR: &'static str = "justin cechmanek";

/// Something that can be summed up in a line.
pub trait Summary {
    /// The summary of `self`.
    spec fn summary(&self) -> Seq<char>;

    fn summarize(&self) -> (r: String)
        ensures
            r@ == self.summary(),
    ;

    fn get_author(&self) -> (r: String)
        ensures
            r@ == DEFAULT_AUTHOR@,
    {
        String::from_str(DEFAULT_AUTHOR)
    }
}

/// A news article.
pub struct NewsArticle {
    pub headline: String,
    pub location: String,
    pub author: String,
    pub content: String,
}

impl Summary for NewsArticle {
    /// `headline, by author (location)`.
    open spec fn summary(&self) -> Seq<char> {
        self.headline@ + ", by "@ + self.author@ + " ("@ + self.location@ + ")"@
    }

    fn summarize(&self) -> (r: String) {
        let mut s = self.headline.clone();
        s.append(", by ");
        s.append(self.author.as_str());
        s.append(" (");
        s.append(self.location.as_str());
        s.append(")");
        s
    }
}

/// A short post.
pub struct Tweet {
    pub username: String,
    pub content: String,
    pub reply: bool,
    pub retweet: bool,
}

impl Summary for Tweet {
    /// `username: content`.
    open spec fn summary(&self) -> Seq<char> {
        self.username@ + ": "@ + self.content@
    }

    fn summarize(&self) -> (r: String) {
        let mut s = self.username.clone();
        s.append(": ");
        s.append(self.content.as_str());
        s
    }
}

} // verus!
