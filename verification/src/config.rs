//! The environments that the explorer knows.

use vstd::prelude::*;
use crate::models::query::opt_view;
use crate::text::{contains_text, trim_end, trim_trailing, views};

verus! {

#[derive(Debug, Clone)]
pub struct Config {
    pub environments: Vec<String>,
    pub current_env: Option<String>,
}

impl Default for Config {
    fn default() -> (r: Config)
        ensures
            r.environments@.len() == 0,
            r.current_env is None,
    {
        Config { environments: Vec::new(), current_env: None }
    }
}

/// `known` with `url` after it, unless it is among them already.
pub open spec fn with_environment(known: Seq<Seq<char>>, url: Seq<char>) -> Seq<Seq<char>> {
    if known.contains(url) {
        known
    } else {
        known.push(url)
    }
}

/// `known` with each of `urls` that is new, without the slashes at its end,
/// in the order in which they come.
pub open spec fn with_discovered(known: Seq<Seq<char>>, urls: Seq<Seq<char>>) -> Seq<Seq<char>>
    decreases urls.len(),
{
    if urls.len() == 0 {
        known
    } else {
        with_environment(with_discovered(known, urls.drop_last()), trim_end(urls.last(), '/'))
    }
}

/// An environment's address as the explorer holds it: without the slashes at
/// its end.
pub fn normalize_environment_url(url: &str) -> (out: String)
    ensures
        out@ == trim_end(url@, '/'),
{
    trim_trailing(url, '/')
}

impl Config {
    /// Makes `url` the current environment, and a known one if it was none.
    pub fn add_environment(&mut self, url: String)
        ensures
            views(final(self).environments@) == with_environment(
                views(old(self).environments@),
                url@,
            ),
            opt_view(final(self).current_env) == Some(url@),
    {
        let ghost known = views(self.environments@);
        if !contains_text(&self.environments, &url) {
            self.environments.push(url.clone());
            proof {
                assert(views(self.environments@) =~= known.push(url@));
            }
        }
        self.current_env = Some(url);
    }

    /// Takes in the addresses that a discovery gave: each that is new becomes
    /// a known environment, without the slashes at its end. Returns how many
    /// were new.
    pub fn add_discovered(&mut self, urls: &Vec<String>) -> (added: usize)
        ensures
            views(final(self).environments@) == with_discovered(
                views(old(self).environments@),
                views(urls@),
            ),
            final(self).current_env == old(self).current_env,
            added == final(self).environments@.len() - old(self).environments@.len(),
    {
        let ghost known = views(self.environments@);
        let mut added: usize = 0;
        let mut i: usize = 0;
        proof {
            assert(views(urls@).take(0) =~= Seq::empty());
        }
        while i < urls.len()
            invariant
                i <= urls.len(),
                known == views(old(self).environments@),
                views(self.environments@) == with_discovered(known, views(urls@).take(i as int)),
                self.current_env == old(self).current_env,
                added == self.environments@.len() - old(self).environments@.len(),
                added <= i,
            decreases urls.len() - i,
        {
            proof {
                let all = views(urls@);
                assert(all.take(i as int + 1).drop_last() == all.take(i as int));
                assert(all.take(i as int + 1).last() == urls@[i as int]@);
            }
            let url = normalize_environment_url(urls[i].as_str());
            let ghost before = views(self.environments@);
            if !contains_text(&self.environments, &url) {
                self.environments.push(url);
                added += 1;
                proof {
                    assert(views(self.environments@) =~= before.push(url@));
                }
            }
            i += 1;
        }
        proof {
            assert(views(urls@).take(i as int) == views(urls@));
        }
        added
    }
}

} // verus!
