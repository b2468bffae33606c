//! Provider descriptors: the fixed identity (name and category) of each
//! content source the crawler knows. Fetching itself is a collaborator
//! concern that lives with the caller; a provider here is what the
//! scheduler and the health deriver need to speak about one.

use vstd::prelude::*;
use crate::model::Category;
use crate::textutil::{contains_str, ends_with, spec_contains_exact, spec_ends_with};

verus! {

/// Whether a link plainly points at an image: a known image extension,
/// or one of the image hosts the feeds link to.
pub open spec fn spec_is_image_url(url: Seq<char>) -> bool {
    ||| spec_ends_with(url, ".jpg"@)
    ||| spec_ends_with(url, ".jpeg"@)
    ||| spec_ends_with(url, ".png"@)
    ||| spec_ends_with(url, ".gif"@)
    ||| spec_ends_with(url, ".webp"@)
    ||| spec_contains_exact(url, "i.redd.it"@)
    ||| spec_contains_exact(url, "i.imgur.com"@)
    ||| spec_contains_exact(url, "preview.redd.it"@)
}

/// Decides whether a link plainly points at an image.
pub fn is_image_url(url: &str) -> (r: bool)
    ensures
        r == spec_is_image_url(url@),
{
    ends_with(url, ".jpg") || ends_with(url, ".jpeg") || ends_with(url, ".png") || ends_with(
        url,
        ".gif",
    ) || ends_with(url, ".webp") || contains_str(url, "i.redd.it") || contains_str(
        url,
        "i.imgur.com",
    ) || contains_str(url, "preview.redd.it")
}

/// A subreddit-backed source; the crawler runs three of them.
pub struct RedditProvider {
    subreddit: String,
    category: Category,
}

impl RedditProvider {
    /// The subreddit the provider reads.
    pub closed spec fn spec_subreddit(&self) -> Seq<char> {
        self.subreddit@
    }

    /// The category it files items under.
    pub closed spec fn spec_category(&self) -> Category {
        self.category
    }

    /// The meme source.
    pub fn memes() -> (r: Self)
        ensures
            r.spec_subreddit() == "memes"@,
            r.spec_category() == Category::Meme,
    {
        RedditProvider { subreddit: String::from_str("memes"), category: Category::Meme }
    }

    /// The dad-joke source.
    pub fn dad_jokes() -> (r: Self)
        ensures
            r.spec_subreddit() == "dadjokes"@,
            r.spec_category() == Category::Joke,
    {
        RedditProvider { subreddit: String::from_str("dadjokes"), category: Category::Joke }
    }

    /// The celebrity-gossip source.
    pub fn celebrity_gossip() -> (r: Self)
        ensures
            r.spec_subreddit() == "entertainment"@,
            r.spec_category() == Category::Gossip,
    {
        RedditProvider { subreddit: String::from_str("entertainment"), category: Category::Gossip }
    }

    /// The provider's name: the subreddit itself.
    pub fn name(&self) -> (r: &str)
        ensures
            r@ == self.spec_subreddit(),
    {
        self.subreddit.as_str()
    }

    /// The provider's category.
    pub fn category(&self) -> (r: Category)
        ensures
            r == self.spec_category(),
    {
        self.category
    }
}

/// The icanhazdadjoke search feed.
pub struct DadJokeProvider;

impl DadJokeProvider {
    /// The provider's name.
    pub fn name(&self) -> (r: &str)
        ensures
            r@ == "icanhazdadjoke"@,
    {
        "icanhazdadjoke"
    }

    /// The provider's category.
    pub fn category(&self) -> (r: Category)
        ensures
            r == Category::Joke,
    {
        Category::Joke
    }
}

/// The meme subreddit feed, fetched with inline thumbnails.
pub struct RedditMemeProvider;

impl RedditMemeProvider {
    /// The provider's name.
    pub fn name(&self) -> (r: &str)
        ensures
            r@ == "reddit-memes"@,
    {
        "reddit-memes"
    }

    /// The provider's category.
    pub fn category(&self) -> (r: Category)
        ensures
            r == Category::Meme,
    {
        Category::Meme
    }
}

/// The video subreddit feed.
pub struct RedditVideoProvider;

impl RedditVideoProvider {
    /// The provider's name.
    pub fn name(&self) -> (r: &str)
        ensures
            r@ == "reddit-videos"@,
    {
        "reddit-videos"
    }

    /// The provider's category.
    pub fn category(&self) -> (r: Category)
        ensures
            r == Category::Video,
    {
        Category::Video
    }
}

/// The celebrity-news feed.
pub struct GossipProvider;

impl GossipProvider {
    /// The provider's name.
    pub fn name(&self) -> (r: &str)
        ensures
            r@ == "gossip"@,
    {
        "gossip"
    }

    /// The provider's category.
    pub fn category(&self) -> (r: Category)
        ensures
            r == Category::Gossip,
    {
        Category::Gossip
    }
}

/// The aggregated news RSS feed.
pub struct GoogleNewsRssProvider;

impl GoogleNewsRssProvider {
    /// The provider's name.
    pub fn name(&self) -> (r: &str)
        ensures
            r@ == "google-news"@,
    {
        "google-news"
    }

    /// The provider's category.
    pub fn category(&self) -> (r: Category)
        ensures
            r == Category::News,
    {
        Category::News
    }
}

/// The two-part joke API.
pub struct JokeApiProvider;

impl JokeApiProvider {
    /// The provider's name.
    pub fn name(&self) -> (r: &str)
        ensures
            r@ == "jokeapi"@,
    {
        "jokeapi"
    }

    /// The provider's category.
    pub fn category(&self) -> (r: Category)
        ensures
            r == Category::Joke,
    {
        Category::Joke
    }
}

/// The random-facts feed.
pub struct UselessFactsProvider;

impl UselessFactsProvider {
    /// The provider's name.
    pub fn name(&self) -> (r: &str)
        ensures
            r@ == "uselessfacts"@,
    {
        "uselessfacts"
    }

    /// The provider's category.
    pub fn category(&self) -> (r: Category)
        ensures
            r == Category::Joke,
    {
        Category::Joke
    }
}

/// The one-liner joke feed.
pub struct ChuckNorrisProvider;

impl ChuckNorrisProvider {
    /// The provider's name.
    pub fn name(&self) -> (r: &str)
        ensures
            r@ == "chucknorris"@,
    {
        "chucknorris"
    }

    /// The provider's category.
    pub fn category(&self) -> (r: Category)
        ensures
            r == Category::Joke,
    {
        Category::Joke
    }
}

/// The tech-news aggregator.
pub struct HackerNewsProvider;

impl HackerNewsProvider {
    /// The provider's name.
    pub fn name(&self) -> (r: &str)
        ensures
            r@ == "hackernews"@,
    {
        "hackernews"
    }

    /// The provider's category.
    pub fn category(&self) -> (r: Category)
        ensures
            r == Category::News,
    {
        Category::News
    }
}

/// The broadcast-news RSS feed.
pub struct BbcNewsProvider;

impl BbcNewsProvider {
    /// The provider's name.
    pub fn name(&self) -> (r: &str)
        ensures
            r@ == "bbc-news"@,
    {
        "bbc-news"
    }

    /// The provider's category.
    pub fn category(&self) -> (r: Category)
        ensures
            r == Category::News,
    {
        Category::News
    }
}

} // verus!
