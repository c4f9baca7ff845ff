//! Command line settings of the multi-thread scraper.

use vstd::prelude::*;
use crate::text::{chars_of, lines, lines_chars, string_of, views};

verus! {

/// Which threads to scrape and what to download with them.
pub struct Config {
    pub urls: Vec<String>,
    pub thumb: bool,
    pub files: bool,
}

/// The URLs to scrape: the one given on the command line first, then each
/// line of the list file.
pub open spec fn given_urls(url: Option<String>, list: Option<String>) -> Seq<Seq<char>> {
    (match url {
        Some(u) => seq![u@],
        None => Seq::empty(),
    }) + match list {
        Some(l) => lines(l@),
        None => Seq::empty(),
    }
}

/// Builds the settings from the command line: the URL argument, the text
/// of the list file (one URL per line), and the two switches. There must be
/// at least one URL; `None` when there is none.
pub fn parse_args(url: Option<String>, list: Option<String>, thumb: bool, files: bool) -> (r:
    Option<Config>)
    ensures
        given_urls(url, list).len() == 0 <==> r is None,
        r matches Some(c) ==> Seq::new(c.urls@.len(), |i: int| c.urls@[i]@) == given_urls(url, list)
            && c.thumb == thumb && c.files == files,
{
    let ghost want = given_urls(url, list);
    let mut urls: Vec<String> = Vec::new();
    match &url {
        Some(u) => urls.push(string_of(&chars_of(u.as_str()))),
        None => {},
    }
    let ghost first = Seq::new(urls@.len(), |i: int| urls@[i]@);
    match &list {
        Some(l) => {
            let ls = lines_chars(&chars_of(l.as_str()));
            let mut i: usize = 0;
            while i < ls.len()
                invariant
                    i <= ls.len(),
                    views(ls@) == lines(l@),
                    Seq::new(urls@.len(), |k: int| urls@[k]@) == first + views(ls@).take(i as int),
                decreases ls.len() - i,
            {
                let s = string_of(&ls[i]);
                let ghost before = Seq::new(urls@.len(), |k: int| urls@[k]@);
                urls.push(s);
                assert(Seq::new(urls@.len(), |k: int| urls@[k]@) =~= before.push(ls@[i as int]@));
                i = i + 1;
                assert(views(ls@).take(i as int) =~= views(ls@).take(i - 1).push(ls@[i - 1]@));
            }
            assert(views(ls@).take(ls.len() as int) == views(ls@));
        },
        None => {},
    }
    assert(Seq::new(urls@.len(), |i: int| urls@[i]@) =~= want) by {
        assert(first =~= match url {
            Some(u) => seq![u@],
            None => Seq::<Seq<char>>::empty(),
        });
    }
    if urls.len() == 0 {
        None
    } else {
        Some(Config { urls, thumb, files })
    }
}

} // verus!
