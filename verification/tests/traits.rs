use std::collections::HashMap;

use primer::laptop_trait::Apple;
use primer::readers_return::return_reader;
use primer::readers_return::Reader;
use primer::summary::Facebook;
use primer::summary::Summary;
use primer::summary::Tweet;
use primer::summary_default::Facebook as DefaultFacebook;
use primer::summary_default::Summary as DefaultSummary;
use primer::summary_default::Tweet as DefaultTweet;

#[test]
fn run_implement_trait_on_types() {
    let facebook: Facebook = Facebook { headline: "".to_string(), author: "".to_string() };
    facebook.summarize();

    let tweet: Tweet<char> = Tweet { reply: 'c', retweet: '+' };
    tweet.summarize();
}

#[test]
fn run_orphan_rule_implement_local_trait_on_external_type() {
    let map: HashMap<&str, char> = HashMap::from([("rust", 'A'), ("c++", 'B')]);
    let summary = map.summarize();
    assert!(summary.contains("rustA"));
    assert!(summary.contains("c++B"));
}

#[test]
fn summarize_concatenates_displayed_pairs() {
    let one: HashMap<&str, char> = HashMap::from([("rust", 'A')]);
    assert_eq!(one.summarize(), "rustA");

    let empty: HashMap<u8, u8> = HashMap::new();
    assert_eq!(empty.summarize(), "");
}

#[test]
fn run_default_implementation() {
    assert_eq!(DefaultSummary::summarize(&DefaultFacebook {}), "(Read more...)");
    assert_eq!(DefaultSummary::summarize(&DefaultTweet {}), "override default behavior");
}

#[test]
fn summarize_joins_headline_and_author() {
    let facebook = Facebook { headline: "verified".to_string(), author: "a prover".to_string() };
    assert_eq!(facebook.summarize(), "verified, by a prover");

    let tweet: Tweet<i32> = Tweet { reply: 1, retweet: 2 };
    assert_eq!(tweet.summarize(), "1: 2");
}

#[test]
fn readers_and_laptops_answer() {
    let reader = return_reader();
    assert_eq!(reader.read(), "rust");

    let apple = Apple::new("air".to_string());
    primer::laptop_trait::notify(&apple);
}
