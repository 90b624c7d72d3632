//! Community records: the inputs, metadata and add-on configuration that the
//! community registry stores, with their validity conditions.
use vstd::prelude::*;

verus! {

pub struct CommunityInputs {
    pub handle: String,
    pub name: String,
    pub tag: String,
    pub description: String,
    pub logo_url: String,
    pub banner_url: String,
    pub bio_markdown: Option<String>,
}

pub struct CommunityMetadata {
    pub admins: Vec<String>,
    pub handle: String,
    pub name: String,
    pub tag: String,
    pub description: String,
    pub logo_url: String,
    pub banner_url: String,
    pub bio_markdown: Option<String>,
}

pub struct CommunityFeatureFlags {
    pub telegram: bool,
    pub github: bool,
    pub board: bool,
    pub wiki: bool,
}

pub struct WikiPage {
    name: String,
    content_markdown: String,
}

pub struct CommunityAddOnConfig {
    pub config_id: String,
    pub addon_id: String,
    pub parameters: String,
    pub enabled: bool,
    pub name: String,
}

impl Clone for CommunityAddOnConfig {
    fn clone(&self) -> (r: Self)
        ensures
            r == *self,
    {
        CommunityAddOnConfig {
            config_id: self.config_id.clone(),
            addon_id: self.addon_id.clone(),
            parameters: self.parameters.clone(),
            enabled: self.enabled,
            name: self.name.clone(),
        }
    }
}

pub struct CommunityAddOn {
    pub id: String,
    pub title: String,
    pub description: String,
    pub viewer: String,
    pub configurator: String,
    pub icon: String,
}

impl CommunityAddOn {
    /// The character-count ranges that every stored add-on must satisfy.
    pub open spec fn valid(&self) -> bool {
        &&& 3 <= self.id@.len() <= 60
        &&& 3 <= self.title@.len() <= 60
        &&& 3 <= self.description@.len() <= 60
        &&& 6 <= self.viewer@.len() <= 60
        &&& self.configurator@.len() <= 60
        &&& 6 <= self.icon@.len() <= 60
    }

    /// Checks the add-on's field ranges. Inputs outside the ranges are
    /// excluded up front by the precondition: callers must establish
    /// validity before storing the record.
    pub fn validate(&self)
        requires
            self.valid(),
    {
    }
}

pub struct Community {
    pub admins: Vec<String>,
    pub handle: String,
    pub name: String,
    pub tag: String,
    pub description: String,
    pub logo_url: String,
    pub banner_url: String,
    pub bio_markdown: Option<String>,
    pub github_handle: Option<String>,
    pub telegram_handle: Vec<String>,
    pub twitter_handle: Option<String>,
    pub website_url: Option<String>,
    /// JSON string of github board configuration
    pub github: Option<String>,
    /// JSON string of kanban board configuration
    pub board: Option<String>,
    pub wiki1: Option<WikiPage>,
    pub wiki2: Option<WikiPage>,
    pub features: CommunityFeatureFlags,
    pub addon_list: Vec<CommunityAddOnConfig>,
}

pub struct FeaturedCommunity {
    pub handle: String,
}

pub struct CommunityPermissions {
    pub can_configure: bool,
    pub can_delete: bool,
}

/// Every field of the community except the add-on list is the same in
/// `pre` and `post`.
pub open spec fn same_apart_from_addons(pre: &Community, post: &Community) -> bool {
    &&& post.admins == pre.admins
    &&& post.handle == pre.handle
    &&& post.name == pre.name
    &&& post.tag == pre.tag
    &&& post.description == pre.description
    &&& post.logo_url == pre.logo_url
    &&& post.banner_url == pre.banner_url
    &&& post.bio_markdown == pre.bio_markdown
    &&& post.github_handle == pre.github_handle
    &&& post.telegram_handle == pre.telegram_handle
    &&& post.twitter_handle == pre.twitter_handle
    &&& post.website_url == pre.website_url
    &&& post.github == pre.github
    &&& post.board == pre.board
    &&& post.wiki1 == pre.wiki1
    &&& post.wiki2 == pre.wiki2
    &&& post.features == pre.features
}

/// Every field of the community except the admin list is the same in
/// `pre` and `post`.
pub open spec fn same_apart_from_admins(pre: &Community, post: &Community) -> bool {
    &&& post.handle == pre.handle
    &&& post.name == pre.name
    &&& post.tag == pre.tag
    &&& post.description == pre.description
    &&& post.logo_url == pre.logo_url
    &&& post.banner_url == pre.banner_url
    &&& post.bio_markdown == pre.bio_markdown
    &&& post.github_handle == pre.github_handle
    &&& post.telegram_handle == pre.telegram_handle
    &&& post.twitter_handle == pre.twitter_handle
    &&& post.website_url == pre.website_url
    &&& post.github == pre.github
    &&& post.board == pre.board
    &&& post.wiki1 == pre.wiki1
    &&& post.wiki2 == pre.wiki2
    &&& post.features == pre.features
    &&& post.addon_list == pre.addon_list
}

impl Community {
    /// The character-count ranges that every stored community must satisfy.
    pub open spec fn valid(&self) -> bool {
        &&& 3 <= self.handle@.len() <= 40
        &&& 3 <= self.name@.len() <= 30
        &&& 3 <= self.tag@.len() <= 30
        &&& 6 <= self.description@.len() <= 60
        &&& match self.bio_markdown {
            Some(text) => 3 <= text@.len() <= 200,
            None => true,
        }
    }

    /// Checks the community's field ranges. Inputs outside the ranges are
    /// excluded up front by the precondition: callers must establish
    /// validity before storing the record.
    pub fn validate(&self)
        requires
            self.valid(),
    {
    }

    /// Appends one add-on configuration to the community's list, leaving
    /// every other field untouched.
    pub fn add_addon(&mut self, addon_config: CommunityAddOnConfig)
        ensures
            final(self).addon_list@ == old(self).addon_list@.push(addon_config),
            same_apart_from_addons(old(self), final(self)),
    {
        self.addon_list.push(addon_config);
    }

    /// Removes every add-on configuration with the given config id, keeping
    /// the rest in order and leaving every other field untouched.
    pub fn remove_addon(&mut self, config_id: String)
        ensures
            final(self).addon_list@ == old(self).addon_list@.filter(
                |config: CommunityAddOnConfig| config.config_id@ != config_id@,
            ),
            same_apart_from_addons(old(self), final(self)),
    {
        let mut kept: Vec<CommunityAddOnConfig> = Vec::new();
        let n = self.addon_list.len();
        let mut i: usize = 0;
        proof {
            reveal(Seq::filter);
            assert(self.addon_list@.subrange(0, 0).filter(
                |config: CommunityAddOnConfig| config.config_id@ != config_id@,
            ) =~= Seq::<CommunityAddOnConfig>::empty());
        }
        while i < n
            invariant
                0 <= i <= n == self.addon_list.len(),
                kept@ == self.addon_list@.subrange(0, i as int).filter(
                    |config: CommunityAddOnConfig| config.config_id@ != config_id@,
                ),
            decreases n - i,
        {
            let keep = !self.addon_list[i].config_id.eq(&config_id);
            proof {
                let pre = self.addon_list@.subrange(0, i as int);
                let pre1 = self.addon_list@.subrange(0, i + 1);
                assert(pre1.drop_last() =~= pre);
                assert(pre1.last() == self.addon_list@[i as int]);
                reveal(Seq::filter);
            }
            if keep {
                kept.push(self.addon_list[i].clone());
            }
            i += 1;
        }
        proof {
            assert(self.addon_list@.subrange(0, n as int) =~= self.addon_list@);
        }
        self.addon_list = kept;
    }

    /// Makes `predecessor` the sole admin if the community has none yet,
    /// leaving every other field untouched. The caller passes in who is
    /// acting, since the host environment knows.
    pub fn set_default_admin(&mut self, predecessor: String)
        ensures
            final(self).admins@ == if old(self).admins@.len() == 0 {
                seq![predecessor]
            } else {
                old(self).admins@
            },
            same_apart_from_admins(old(self), final(self)),
    {
        if self.admins.is_empty() {
            self.admins = vec![predecessor];
        }
    }
}

} // verus!
