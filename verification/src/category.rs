//! The closed set of listing kinds the remote API offers, each with its
//! endpoint name and display label.

use vstd::prelude::*;

verus! {

/// One of the remote API's fixed listing kinds.
#[derive(Debug, Clone, Copy, PartialEq, Eq, Structural)]
pub enum Category {
    Top,
    New,
    Best,
    Ask,
    Show,
    Jobs,
}

impl Default for Category {
    /// The category shown at startup.
    fn default() -> (c: Self)
        ensures
            c == Category::Top,
    {
        Category::Top
    }
}

impl Category {
    /// The endpoint name of this category on the remote API.
    pub fn api_endpoint(&self) -> (r: &'static str)
        ensures
            r@ == self.spec_endpoint(),
    {
        proof {
            reveal_strlit("topstories");
            reveal_strlit("newstories");
            reveal_strlit("beststories");
            reveal_strlit("askstories");
            reveal_strlit("showstories");
            reveal_strlit("jobstories");
        }
        match self {
            Category::Top => "topstories",
            Category::New => "newstories",
            Category::Best => "beststories",
            Category::Ask => "askstories",
            Category::Show => "showstories",
            Category::Jobs => "jobstories",
        }
    }

    /// The label under which this category is shown.
    pub fn display_name(&self) -> (r: &'static str)
        ensures
            r@ == self.spec_display_name(),
    {
        proof {
            reveal_strlit("Top");
            reveal_strlit("New");
            reveal_strlit("Best");
            reveal_strlit("Ask");
            reveal_strlit("Show");
            reveal_strlit("Jobs");
        }
        match self {
            Category::Top => "Top",
            Category::New => "New",
            Category::Best => "Best",
            Category::Ask => "Ask",
            Category::Show => "Show",
            Category::Jobs => "Jobs",
        }
    }

    pub open spec fn spec_endpoint(self) -> Seq<char> {
        match self {
            Category::Top => "topstories"@,
            Category::New => "newstories"@,
            Category::Best => "beststories"@,
            Category::Ask => "askstories"@,
            Category::Show => "showstories"@,
            Category::Jobs => "jobstories"@,
        }
    }

    pub open spec fn spec_display_name(self) -> Seq<char> {
        match self {
            Category::Top => "Top"@,
            Category::New => "New"@,
            Category::Best => "Best"@,
            Category::Ask => "Ask"@,
            Category::Show => "Show"@,
            Category::Jobs => "Jobs"@,
        }
    }

    /// Every category, in the order the sidebar lists them.
    pub fn all() -> (v: Vec<Category>)
        ensures
            v@ =~= seq![
                Category::Top,
                Category::New,
                Category::Best,
                Category::Ask,
                Category::Show,
                Category::Jobs,
            ],
    {
        let mut v: Vec<Category> = Vec::new();
        v.push(Category::Top);
        v.push(Category::New);
        v.push(Category::Best);
        v.push(Category::Ask);
        v.push(Category::Show);
        v.push(Category::Jobs);
        v
    }
}

} // verus!
