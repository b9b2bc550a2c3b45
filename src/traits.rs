//! A trait with required and provided methods, and two types that implement it.
use vstd::prelude::*;
use vstd::string::*;
use crate::text::{decimal, decimal_string, signed_decimal, signed_decimal_string};

verus! {

/// Something that can be summed up in a line.
pub trait Summary {
    /// The summary line.
    spec fn summary_text(&self) -> Seq<char>;

    /// Who wrote it.
    spec fn author_text(&self) -> Seq<char>;

    fn summarize(&self) -> (r: String)
        ensures
            r@ == self.summary_text(),
    ;

    fn summarize_author(&self) -> (r: String)
        ensures
            r@ == self.author_text(),
    ;

    /// A pointer to more from the author.
    fn default_summary(&self) -> (r: String)
        ensures
            r@ == "(Read more from "@ + self.author_text() + "...)"@,
    {
        let mut r = String::from_str("(Read more from ");
        r.append(self.summarize_author().as_str());
        r.append("...)");
        r
    }
}

pub struct NewsArticle {
    pub headline: String,
    pub author: String,
    pub content: String,
}

impl Summary for NewsArticle {
    /// `headline, by author`.
    open spec fn summary_text(&self) -> Seq<char> {
        self.headline@ + ", by "@ + self.author@
    }

    open spec fn author_text(&self) -> Seq<char> {
        self.author@
    }

    fn summarize(&self) -> (r: String) {
        let mut r = self.headline.clone();
        r.append(", by ");
        r.append(self.author.as_str());
        r
    }

    fn summarize_author(&self) -> (r: String) {
        self.author.clone()
    }
}

pub struct Tweet {
    pub username: String,
    pub content: String,
    pub retweets: u32,
}

impl Summary for Tweet {
    /// `@username: content (N retweets)`.
    open spec fn summary_text(&self) -> Seq<char> {
        "@"@ + self.username@ + ": "@ + self.content@ + " ("@ + decimal(self.retweets as nat)
            + " retweets)"@
    }

    /// `@username`.
    open spec fn author_text(&self) -> Seq<char> {
        "@"@ + self.username@
    }

    fn summarize(&self) -> (r: String) {
        let mut r = String::from_str("@");
        r.append(self.username.as_str());
        r.append(": ");
        r.append(self.content.as_str());
        r.append(" (");
        r.append(decimal_string(self.retweets).as_str());
        r.append(" retweets)");
        r
    }

    fn summarize_author(&self) -> (r: String) {
        let mut r = String::from_str("@");
        r.append(self.username.as_str());
        r
    }
}

/// A sample tweet.
pub fn create_tweet() -> (r: Tweet)
    ensures
        r.username@ == "rust_daily"@,
        r.content@ == "Tip of the day: Use traits!"@,
        r.retweets == 50,
{
    Tweet {
        username: String::from_str("rust_daily"),
        content: String::from_str("Tip of the day: Use traits!"),
        retweets: 50,
    }
}

/// A point on the integer grid.
#[derive(Clone, Copy, Debug, PartialEq, Eq, Structural)]
pub struct Point {
    pub x: i32,
    pub y: i32,
}

/// `(x, y)`.
pub open spec fn point_text(p: Point) -> Seq<char> {
    "("@ + signed_decimal(p.x as int) + ", "@ + signed_decimal(p.y as int) + ")"@
}

impl Point {
    /// The point as `(x, y)`.
    pub fn to_text(&self) -> (r: String)
        ensures
            r@ == point_text(*self),
    {
        let mut r = String::from_str("(");
        r.append(signed_decimal_string(self.x).as_str());
        r.append(", ");
        r.append(signed_decimal_string(self.y).as_str());
        r.append(")");
        r
    }
}

/// Something that can describe itself in words.
pub trait Describable {
    spec fn description(&self) -> Seq<char>;

    fn describe(&self) -> (r: String)
        ensures
            r@ == self.description(),
    ;
}

impl Describable for Point {
    /// `Point at (x, y)`.
    open spec fn description(&self) -> Seq<char> {
        "Point at "@ + point_text(*self)
    }

    fn describe(&self) -> (r: String) {
        let mut r = String::from_str("Point at ");
        r.append(self.to_text().as_str());
        r
    }
}

/// A person with a name and an age.
#[derive(Debug)]
pub struct Person {
    pub name: String,
    pub age: u32,
}

impl Describable for Person {
    /// `name (N years old)`.
    open spec fn description(&self) -> Seq<char> {
        self.name@ + " ("@ + decimal(self.age as nat) + " years old)"@
    }

    fn describe(&self) -> (r: String) {
        let mut r = self.name.clone();
        r.append(" (");
        r.append(decimal_string(self.age).as_str());
        r.append(" years old)");
        r
    }
}

} // verus!
