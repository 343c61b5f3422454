//! A trait and two types that implement it.

use std::fmt::Display;
use vstd::prelude::*;
use vstd::string::StringExecFns;

verus! {

/// Content that can describe itself in one line.
pub trait Summary {
    /// A one-line description.
    fn summarize(&self) -> String;
}

/// A post with a headline and an author.
pub struct Facebook {
    pub headline: String,
    pub author: String,
}

impl Summary for Facebook {
    /// The headline, then the author: `<headline>, by <author>`.
    fn summarize(&self) -> (r: String)
        ensures
            r@ == self.headline@ + ", by "@ + self.author@,
    {
        let mut s = self.headline.clone();
        s.append(", by ");
        s.append(self.author.as_str());
        s
    }
}

/// A tweet with a reply and a retweet of one displayable type.
pub struct Tweet<T> {
    pub reply: T,
    pub retweet: T,
}

impl<T: Display> Summary for Tweet<T> {
    /// The reply, then the retweet: `<reply>: <retweet>`.
    fn summarize(&self) -> String {
        let mut s = self.reply.to_string();
        s.append(": ");
        let r = self.retweet.to_string();
        s.append(r.as_str());
        s
    }
}

} // verus!
