//! Read-only registry views: the local records that page resolution consults
//! when a path names a community, a proposal or an RFP.
use vstd::prelude::*;

verus! {

/// One community record, as the resolver sees it.
#[derive(Clone)]
pub struct CommunityView {
    pub handle: String,
    pub name: String,
    pub description: String,
    pub logo_url: String,
}

/// The mathematical content of a community record.
pub struct CommunityModel {
    pub handle: Seq<char>,
    pub name: Seq<char>,
    pub description: Seq<char>,
    pub logo_url: Seq<char>,
}

impl View for CommunityView {
    type V = CommunityModel;

    open spec fn view(&self) -> CommunityModel {
        CommunityModel {
            handle: self.handle@,
            name: self.name@,
            description: self.description@,
            logo_url: self.logo_url@,
        }
    }
}

impl DeepView for CommunityView {
    type V = CommunityModel;

    open spec fn deep_view(&self) -> CommunityModel {
        self.view()
    }
}

/// One proposal record: the fields of its latest revision that the resolver
/// reads.
#[derive(Clone)]
pub struct ProposalView {
    pub name: String,
    pub summary: String,
}

pub struct EntryModel {
    pub name: Seq<char>,
    pub summary: Seq<char>,
}

impl View for ProposalView {
    type V = EntryModel;

    open spec fn view(&self) -> EntryModel {
        EntryModel { name: self.name@, summary: self.summary@ }
    }
}

impl DeepView for ProposalView {
    type V = EntryModel;

    open spec fn deep_view(&self) -> EntryModel {
        self.view()
    }
}

/// One RFP record: the fields of its latest revision that the resolver
/// reads.
#[derive(Clone)]
pub struct RFPView {
    pub name: String,
    pub summary: String,
}

impl View for RFPView {
    type V = EntryModel;

    open spec fn view(&self) -> EntryModel {
        EntryModel { name: self.name@, summary: self.summary@ }
    }
}

impl DeepView for RFPView {
    type V = EntryModel;

    open spec fn deep_view(&self) -> EntryModel {
        self.view()
    }
}

/// The three local registries, read-only inputs to one resolution:
/// communities addressed by handle, proposals and RFPs addressed by numeric
/// id, which is their position.
pub struct Registries {
    pub communities: Vec<CommunityView>,
    pub proposals: Vec<ProposalView>,
    pub rfps: Vec<RFPView>,
}

pub struct RegistriesModel {
    pub communities: Seq<CommunityModel>,
    pub proposals: Seq<EntryModel>,
    pub rfps: Seq<EntryModel>,
}

impl View for Registries {
    type V = RegistriesModel;

    open spec fn view(&self) -> RegistriesModel {
        RegistriesModel {
            communities: self.communities.deep_view(),
            proposals: self.proposals.deep_view(),
            rfps: self.rfps.deep_view(),
        }
    }
}

/// The first community at or after position `i` whose handle is `handle`.
pub open spec fn find_community_from(
    cs: Seq<CommunityModel>,
    handle: Seq<char>,
    i: int,
) -> Option<CommunityModel>
    decreases cs.len() - i,
{
    if i < 0 || i >= cs.len() {
        None
    } else if cs[i].handle == handle {
        Some(cs[i])
    } else {
        find_community_from(cs, handle, i + 1)
    }
}

/// The first community whose handle is `handle`, if any.
pub open spec fn spec_find_community(cs: Seq<CommunityModel>, handle: Seq<char>) -> Option<
    CommunityModel,
> {
    find_community_from(cs, handle, 0)
}

impl Registries {
    /// Looks a community up by its handle.
    pub fn get_community(&self, handle: &String) -> (r: Option<&CommunityView>)
        ensures
            match r {
                Some(c) => spec_find_community(self@.communities, handle@) == Some(c@),
                None => spec_find_community(self@.communities, handle@) is None,
            },
    {
        let n = self.communities.len();
        let mut i: usize = 0;
        while i < n
            invariant
                0 <= i <= n == self@.communities.len(),
                find_community_from(self@.communities, handle@, 0) == find_community_from(
                    self@.communities,
                    handle@,
                    i as int,
                ),
            decreases n - i,
        {
            if self.communities[i].handle.eq(handle) {
                return Some(&self.communities[i]);
            }
            i += 1;
        }
        None
    }

    /// Looks a proposal up by its id, which indexes the proposal list.
    pub fn get_proposal(&self, id: u32) -> (r: Option<&ProposalView>)
        ensures
            match r {
                Some(p) => id < self@.proposals.len() && p@ == self@.proposals[id as int],
                None => id >= self@.proposals.len(),
            },
    {
        if (id as usize) < self.proposals.len() {
            Some(&self.proposals[id as usize])
        } else {
            None
        }
    }

    /// Looks an RFP up by its id, which indexes the RFP list.
    pub fn get_rfp(&self, id: u32) -> (r: Option<&RFPView>)
        ensures
            match r {
                Some(p) => id < self@.rfps.len() && p@ == self@.rfps[id as int],
                None => id >= self@.rfps.len(),
            },
    {
        if (id as usize) < self.rfps.len() {
            Some(&self.rfps[id as usize])
        } else {
            None
        }
    }
}

} // verus!
