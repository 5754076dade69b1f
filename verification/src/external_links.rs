//! The links of a song to outside services, in the order they were added.

use vstd::prelude::*;

verus! {

/// The service an external link leads to.
#[derive(Debug, Clone, Copy, PartialEq, Eq, Structural)]
pub enum ExternalLinkKey {
    AppleMusicUrl,
    AudDUrl,
    SpotifyUrl,
    YoutubeSearchTerm,
}

/// One link: the service and the value that leads there.
#[derive(Debug)]
pub struct ExternalLink {
    pub key: ExternalLinkKey,
    pub value: String,
}

impl ExternalLink {
    pub open spec fn view_pair(&self) -> (ExternalLinkKey, Seq<char>) {
        (self.key, self.value@)
    }
}

/// A list of external links. Adding a link appends it, also when its key is present.
#[derive(Debug)]
pub struct ExternalLinks {
    links: Vec<ExternalLink>,
}

impl View for ExternalLinks {
    type V = Seq<(ExternalLinkKey, Seq<char>)>;

    closed spec fn view(&self) -> Seq<(ExternalLinkKey, Seq<char>)> {
        self.links@.map_values(|link: ExternalLink| link.view_pair())
    }
}

impl ExternalLinks {
    /// An empty list.
    pub fn new() -> (links: ExternalLinks)
        ensures
            links@ == Seq::<(ExternalLinkKey, Seq<char>)>::empty(),
    {
        let links = ExternalLinks { links: Vec::new() };
        assert(links@ =~= Seq::<(ExternalLinkKey, Seq<char>)>::empty());
        links
    }

    /// Appends the link `key` to `value`. This is not idempotent.
    pub fn insert(&mut self, key: ExternalLinkKey, value: String)
        ensures
            final(self)@ == old(self)@.push((key, value@)),
    {
        self.links.push(ExternalLink { key, value });
        assert(self@ =~= old(self)@.push((key, value@)));
    }

    /// The number of links.
    pub fn len(&self) -> (n: usize)
        ensures
            n == self@.len(),
    {
        self.links.len()
    }

    /// The link at `index`, in the order they were added.
    pub fn get(&self, index: usize) -> (link: &ExternalLink)
        requires
            index < self@.len(),
        ensures
            link.view_pair() == self@[index as int],
    {
        &self.links[index]
    }
}

impl Clone for ExternalLinks {
    fn clone(&self) -> (copy: Self)
        ensures
            copy@ == self@,
    {
        let mut links: Vec<ExternalLink> = Vec::new();
        let n = self.links.len();
        for i in 0..n
            invariant
                n == self.links@.len(),
                links@.len() == i,
                forall|j: int| 0 <= j < i ==> (#[trigger] links@[j]).view_pair() == self.links@[j].view_pair(),
        {
            let link = &self.links[i];
            links.push(ExternalLink { key: link.key, value: link.value.clone() });
        }
        let copy = ExternalLinks { links };
        assert(copy@ =~= self@);
        copy
    }
}

} // verus!
