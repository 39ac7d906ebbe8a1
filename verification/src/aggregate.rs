//! Summaries of content types: a trait whose default summary is built
//! from the author line each implementor supplies.

use vstd::prelude::*;

verus! {

/// A piece of content that can introduce its author and summarize itself.
/// The default summary wraps the author line; implementors only say, in
/// `spec_author`, what their author line is, and deliver it in
/// `author_summary`.
pub trait Summarizable {
    /// The author line this content reports.
    spec fn spec_author(&self) -> Seq<char>;

    fn author_summary(&self) -> (r: String)
        ensures
            r@ == self.spec_author(),
    ;

    fn summary(&self) -> (r: String)
        ensures
            r@ == "(Read more from "@ + self.spec_author() + "...)"@,
    {
        let author = self.author_summary();
        let mut out = "(Read more from ".to_owned();
        out.append(author.as_str());
        out.append("...)");
        out
    }
}

pub struct NewsArticle {
    pub headline: String,
    pub location: String,
    pub author: String,
    pub content: String,
}

impl Summarizable for NewsArticle {
    /// A news article is signed with the author's plain name.
    open spec fn spec_author(&self) -> Seq<char> {
        self.author@
    }

    fn author_summary(&self) -> (r: String) {
        self.author.clone()
    }
}

pub struct Tweet {
    pub username: String,
    pub content: String,
    pub reply: bool,
    pub retweet: bool,
}

impl Summarizable for Tweet {
    /// A tweet is signed with the at-prefixed username.
    open spec fn spec_author(&self) -> Seq<char> {
        "@"@ + self.username@
    }

    fn author_summary(&self) -> (r: String) {
        let mut out = "@".to_owned();
        out.append(self.username.as_str());
        out
    }
}

/// A pair of two values of one type.
pub struct Pair<T> {
    pub x: T,
    pub y: T,
}

impl<T> Pair<T> {
    pub fn new(x: T, y: T) -> (r: Self)
        ensures
            r.x == x,
            r.y == y,
    {
        Self { x, y }
    }
}

} // verus!
