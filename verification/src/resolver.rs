//! The page resolver: a stateless two-phase protocol. A first call without
//! preloaded content answers with the content-store keys the page needs; a
//! replay with those keys' results synthesizes the final document, treating
//! every malformed or missing piece of external data as absent.
use crate::codec::{
    b64_decode, b64_decoded_of, b64_encode, b64_encoded_of, json_str3, json_str3_of, json_str5,
    json_str5_of, json_u64_3, json_u64_3_of,
};
use crate::escape::{escape_html, escape_json, html_escaped, json_escaped};
use crate::registry::{spec_find_community, Registries, RegistriesModel};
use crate::strutil::{spec_dec, spec_parse_u32, spec_split_slash, parse_u32, split_slash, u64_to_dec};
use crate::WEB4_RESOURCE_ACCOUNT;
use vstd::prelude::*;
use vstd::string::StrSliceExecFns;
use vstd::string::StringExecFns;

verus! {

/// One preloaded lookup result handed back by the caller: the content type
/// reported by the store and the body as base64 text.
pub struct PreloadedContent {
    pub content_type: String,
    pub body: String,
}

/// One inbound request: the `/`-delimited path, and, on replay, the results
/// of the previously declared lookups, keyed by preload key.
pub struct Web4Request {
    pub path: String,
    pub preloads: Option<Vec<(String, PreloadedContent)>>,
}

/// The resolver's answer: either the keys that must be looked up before the
/// page can be rendered, or the final document, its body as base64 text.
pub enum Web4Response {
    PreloadUrls { preload_urls: Vec<String> },
    Body { content_type: String, body: String },
}

/// The mathematical content of a preload map: each entry reduced to its key
/// and its body text, which are all the resolver reads.
pub open spec fn entries_view(entries: Seq<(String, PreloadedContent)>) -> Seq<
    (Seq<char>, Seq<char>),
> {
    entries.map_values(|e: (String, PreloadedContent)| (e.0@, e.1.body@))
}

#[verifier::ext_equal]
pub struct RequestModel {
    pub path: Seq<char>,
    pub preloads: Option<Seq<(Seq<char>, Seq<char>)>>,
}

impl View for Web4Request {
    type V = RequestModel;

    open spec fn view(&self) -> RequestModel {
        RequestModel {
            path: self.path@,
            preloads: match self.preloads {
                Some(entries) => Some(entries_view(entries@)),
                None => None,
            },
        }
    }
}

#[verifier::ext_equal]
pub enum ResponseModel {
    PreloadUrls { preload_urls: Seq<Seq<char>> },
    Body { content_type: Seq<char>, body: Seq<char> },
}

impl View for Web4Response {
    type V = ResponseModel;

    open spec fn view(&self) -> ResponseModel {
        match self {
            Web4Response::PreloadUrls { preload_urls } => ResponseModel::PreloadUrls {
                preload_urls: preload_urls.deep_view(),
            },
            Web4Response::Body { content_type, body } => ResponseModel::Body {
                content_type: content_type@,
                body: body@,
            },
        }
    }
}

/// The body text stored under `key`, at its first occurrence at or after
/// position `i`.
pub open spec fn lookup_from(
    entries: Seq<(Seq<char>, Seq<char>)>,
    key: Seq<char>,
    i: int,
) -> Option<Seq<char>>
    decreases entries.len() - i,
{
    if i < 0 || i >= entries.len() {
        None
    } else if entries[i].0 == key {
        Some(entries[i].1)
    } else {
        lookup_from(entries, key, i + 1)
    }
}

/// The body text stored under `key` in a preload map, if any.
pub open spec fn spec_lookup(entries: Seq<(Seq<char>, Seq<char>)>, key: Seq<char>) -> Option<
    Seq<char>,
> {
    lookup_from(entries, key, 0)
}

/// Finds the body stored under `key` in the preload map.
fn lookup_body<'a>(entries: &'a Vec<(String, PreloadedContent)>, key: &String) -> (r: Option<
    &'a String,
>)
    ensures
        match r {
            Some(b) => spec_lookup(entries_view(entries@), key@) == Some(b@),
            None => spec_lookup(entries_view(entries@), key@) is None,
        },
{
    let n = entries.len();
    let mut i: usize = 0;
    while i < n
        invariant
            0 <= i <= n == entries@.len(),
            lookup_from(entries_view(entries@), key@, 0) == lookup_from(
                entries_view(entries@),
                key@,
                i as int,
            ),
        decreases n - i,
    {
        if entries[i].0.eq(key) {
            return Some(&entries[i].1.body);
        }
        i += 1;
    }
    None
}

// The fixed pieces of the three preload keys.
pub const KEY_META_PRE: &'static str = "/web4/contract/social.near/get?keys.json=%5B%22";
pub const KEY_META_SUF: &'static str = "/widget/app/metadata/**%22%5D";
pub const KEY_HTTPS: &'static str = "https://";
pub const KEY_SCRIPT_MID: &'static str = ".page/web4/contract/social.near/keys?keys.json=%5B%22";
pub const KEY_SCRIPT_SUF: &'static str =
    "/web4/web4browserclient.js%22%5D&options.json=%7B%22return_type%22%3A%22BlockHeight%22%7D";
pub const KEY_RESOURCE_MID: &'static str = ".page/web4/contract/social.near/get?keys.json=%5B%22";
pub const KEY_RESOURCE_WEB4: &'static str = "/web4/";
pub const KEY_RESOURCE_SUF: &'static str = "%22%5D";

/// The key that preloads the app's display metadata.
pub open spec fn metadata_key(account: Seq<char>) -> Seq<char> {
    KEY_META_PRE@ + account + KEY_META_SUF@
}

/// The key that preloads the browser-client script's version counter.
pub open spec fn script_key(account: Seq<char>) -> Seq<char> {
    KEY_HTTPS@ + account + KEY_SCRIPT_MID@ + WEB4_RESOURCE_ACCOUNT@ + KEY_SCRIPT_SUF@
}

/// The key that preloads one raw resource file of `owner`.
pub open spec fn resource_key(account: Seq<char>, owner: Seq<char>, file: Seq<char>) -> Seq<char> {
    KEY_HTTPS@ + account + KEY_RESOURCE_MID@ + owner + KEY_RESOURCE_WEB4@ + file
        + KEY_RESOURCE_SUF@
}

/// Builds the metadata preload key for `account`.
pub fn build_metadata_key(account: &str) -> (r: String)
    ensures
        r@ == metadata_key(account@),
{
    let mut out = String::from_str(KEY_META_PRE);
    out.append(account);
    out.append(KEY_META_SUF);
    out
}

/// Builds the script-version preload key for `account`.
pub fn build_script_key(account: &str) -> (r: String)
    ensures
        r@ == script_key(account@),
{
    let mut out = String::from_str(KEY_HTTPS);
    out.append(account);
    out.append(KEY_SCRIPT_MID);
    out.append(WEB4_RESOURCE_ACCOUNT);
    out.append(KEY_SCRIPT_SUF);
    out
}

/// Builds the resource preload key for one file of `owner`.
pub fn build_resource_key(account: &str, owner: &str, file: &str) -> (r: String)
    ensures
        r@ == resource_key(account@, owner@, file@),
{
    let mut out = String::from_str(KEY_HTTPS);
    out.append(account);
    out.append(KEY_RESOURCE_MID);
    out.append(owner);
    out.append(KEY_RESOURCE_WEB4);
    out.append(file);
    out.append(KEY_RESOURCE_SUF);
    out
}

/// A path is in resource mode when its second segment is `resources` and
/// owner and file segments follow.
pub open spec fn is_resource_path(segs: Seq<Seq<char>>) -> bool {
    segs.len() >= 4 && segs[1] == "resources"@
}

/// What a resource preload yields: the body decoded from base64, parsed as
/// JSON, and read at `[owner].web4.[file]`; `None` on any failure.
pub open spec fn resource_content(
    body: Option<Seq<char>>,
    owner: Seq<char>,
    file: Seq<char>,
) -> Option<Seq<char>> {
    match body {
        None => None,
        Some(text) => match b64_decoded_of(text) {
            None => None,
            Some(bytes) => json_str3_of(bytes, owner, "web4"@, file),
        },
    }
}

} // verus!

verus! {

// Default display metadata and content types.
pub const DEFAULT_APP_NAME: &'static str = "near/dev/hub";
pub const DEFAULT_DESCRIPTION: &'static str = "The decentralized home base for NEAR builders";
pub const CONTENT_TYPE_HTML: &'static str = "text/html; charset=UTF-8";
pub const CONTENT_TYPE_JS: &'static str = "application/javascript";

// JSON keys probed in the preloaded documents.
pub const JSON_WIDGET: &'static str = "widget";
pub const JSON_APP: &'static str = "app";
pub const JSON_METADATA: &'static str = "metadata";
pub const JSON_NAME: &'static str = "name";
pub const JSON_DESCRIPTION: &'static str = "description";
pub const JSON_WEB4: &'static str = "web4";
pub const JSON_BROWSERCLIENT: &'static str = "web4browserclient.js";

/// The app name shown in the document: the one stored under the account's
/// widget metadata if the preloaded body yields it, the default otherwise.
pub open spec fn meta_app_name(body: Option<Seq<char>>, account: Seq<char>) -> Seq<char> {
    match body {
        None => DEFAULT_APP_NAME@,
        Some(text) => match b64_decoded_of(text) {
            None => DEFAULT_APP_NAME@,
            Some(bytes) => match json_str5_of(
                bytes,
                account,
                JSON_WIDGET@,
                JSON_APP@,
                JSON_METADATA@,
                JSON_NAME@,
            ) {
                Some(v) => v,
                None => DEFAULT_APP_NAME@,
            },
        },
    }
}

/// The base description: the one stored under the account's widget metadata
/// if the preloaded body yields it, the default otherwise.
pub open spec fn meta_description(body: Option<Seq<char>>, account: Seq<char>) -> Seq<char> {
    match body {
        None => DEFAULT_DESCRIPTION@,
        Some(text) => match b64_decoded_of(text) {
            None => DEFAULT_DESCRIPTION@,
            Some(bytes) => match json_str5_of(
                bytes,
                account,
                JSON_WIDGET@,
                JSON_APP@,
                JSON_METADATA@,
                JSON_DESCRIPTION@,
            ) {
                Some(v) => v,
                None => DEFAULT_DESCRIPTION@,
            },
        },
    }
}

/// The browser-client script version: the preloaded counter if the body
/// yields one, the host's current counter otherwise.
pub open spec fn script_height(body: Option<Seq<char>>, height: u64) -> u64 {
    match body {
        None => height,
        Some(text) => match b64_decoded_of(text) {
            None => height,
            Some(bytes) => match json_u64_3_of(
                bytes,
                WEB4_RESOURCE_ACCOUNT@,
                JSON_WEB4@,
                JSON_BROWSERCLIENT@,
            ) {
                Some(v) => v,
                None => height,
            },
        },
    }
}

// Fixed pieces of page-specific strings.
pub const IMG_PRE: &'static str =
    "https://i.near.social/magic/large/https://near.social/magic/img/account/";
pub const PAGE_COMMUNITY: &'static str = "community";
pub const PAGE_PROPOSAL: &'static str = "proposal";
pub const PAGE_RFP: &'static str = "rfp";
pub const TITLE_COMMUNITY: &'static str = " - Community - ";
pub const TITLE_PROPOSAL: &'static str = " - Proposal #";
pub const TITLE_PROPOSALS: &'static str = " - Proposals";
pub const TITLE_RFP: &'static str = " - RFP #";
pub const TITLE_RFPS: &'static str = " - RFPs";
pub const TITLE_SEP: &'static str = " - ";
pub const REDIR_APP: &'static str = "/widget/app";
pub const REDIR_QPAGE: &'static str = "/widget/app?page=";
pub const REDIR_HANDLE: &'static str = "&handle=";
pub const REDIR_ID: &'static str = "&id=";
pub const PROPS_HANDLE_PRE: &'static str = "{\"handle\":\"";
pub const PROPS_ID_PRE: &'static str = "{\"id\":\"";
pub const PROPS_PAGE_PRE: &'static str = "{\"page\":\"";
pub const PROPS_PAGE_MID: &'static str = "\",\"page\":\"";
pub const PROPS_END: &'static str = "\"}";

/// The host account's profile picture, the default page image.
pub open spec fn profile_image(account: Seq<char>) -> Seq<char> {
    IMG_PRE@ + account
}

/// The page-specific parts of the document.
#[verifier::ext_equal]
pub struct PageData {
    pub title: Seq<char>,
    pub description: Seq<char>,
    pub image: Seq<char>,
    pub redirect_path: Seq<char>,
    pub props: Seq<char>,
}

pub open spec fn default_page_data(
    page: Seq<char>,
    base_desc: Seq<char>,
    account: Seq<char>,
) -> PageData {
    PageData {
        title: Seq::<char>::empty(),
        description: base_desc,
        image: profile_image(account),
        redirect_path: account + REDIR_APP@,
        props: PROPS_PAGE_PRE@ + json_escaped(page) + PROPS_END@,
    }
}

pub open spec fn community_page_data(
    page: Seq<char>,
    handle: Seq<char>,
    regs: RegistriesModel,
    base_desc: Seq<char>,
    account: Seq<char>,
) -> PageData {
    let found = spec_find_community(regs.communities, handle);
    PageData {
        title: match found {
            Some(c) => TITLE_COMMUNITY@ + c.name,
            None => TITLE_COMMUNITY@ + handle,
        },
        description: match found {
            Some(c) => c.description,
            None => base_desc,
        },
        image: match found {
            Some(c) => c.logo_url,
            None => profile_image(account),
        },
        redirect_path: account + REDIR_QPAGE@ + page + REDIR_HANDLE@ + handle,
        props: PROPS_HANDLE_PRE@ + json_escaped(handle) + PROPS_PAGE_MID@ + json_escaped(page)
            + PROPS_END@,
    }
}

pub open spec fn proposal_page_data(
    page: Seq<char>,
    ident: Seq<char>,
    regs: RegistriesModel,
    base_desc: Seq<char>,
    account: Seq<char>,
) -> PageData {
    PageData {
        title: match spec_parse_u32(ident) {
            Some(id) => if id < regs.proposals.len() {
                TITLE_PROPOSAL@ + spec_dec(id as nat) + TITLE_SEP@ + regs.proposals[id as int].name
            } else {
                TITLE_PROPOSAL@ + spec_dec(id as nat)
            },
            None => TITLE_PROPOSALS@,
        },
        description: match spec_parse_u32(ident) {
            Some(id) => if id < regs.proposals.len() {
                regs.proposals[id as int].summary
            } else {
                base_desc
            },
            None => base_desc,
        },
        image: profile_image(account),
        redirect_path: account + REDIR_QPAGE@ + page + REDIR_ID@ + ident,
        props: PROPS_ID_PRE@ + json_escaped(ident) + PROPS_PAGE_MID@ + json_escaped(page)
            + PROPS_END@,
    }
}

pub open spec fn rfp_page_data(
    page: Seq<char>,
    ident: Seq<char>,
    regs: RegistriesModel,
    base_desc: Seq<char>,
    account: Seq<char>,
) -> PageData {
    PageData {
        title: match spec_parse_u32(ident) {
            Some(id) => if id < regs.rfps.len() {
                TITLE_RFP@ + spec_dec(id as nat) + TITLE_SEP@ + regs.rfps[id as int].name
            } else {
                TITLE_RFP@ + spec_dec(id as nat)
            },
            None => TITLE_RFPS@,
        },
        description: match spec_parse_u32(ident) {
            Some(id) => if id < regs.rfps.len() {
                regs.rfps[id as int].summary
            } else {
                base_desc
            },
            None => base_desc,
        },
        image: profile_image(account),
        redirect_path: account + REDIR_QPAGE@ + page + REDIR_ID@ + ident,
        props: PROPS_ID_PRE@ + json_escaped(ident) + PROPS_PAGE_MID@ + json_escaped(page)
            + PROPS_END@,
    }
}

/// The page-specific parts, dispatched on the page token and the presence
/// of an identifier segment.
pub open spec fn page_data(
    page: Seq<char>,
    second: Option<Seq<char>>,
    regs: RegistriesModel,
    base_desc: Seq<char>,
    account: Seq<char>,
) -> PageData {
    match second {
        Some(ident) => if page == PAGE_COMMUNITY@ {
            community_page_data(page, ident, regs, base_desc, account)
        } else if page == PAGE_PROPOSAL@ {
            proposal_page_data(page, ident, regs, base_desc, account)
        } else if page == PAGE_RFP@ {
            rfp_page_data(page, ident, regs, base_desc, account)
        } else {
            default_page_data(page, base_desc, account)
        },
        None => default_page_data(page, base_desc, account),
    }
}

} // verus!

verus! {

// The document template, split at its placeholders. The placeholder order
// is: title; redirect path; app name and title; description; image; app
// name and title; description; image; account; redirect path twice;
// account; initial props; resource account; script version.
pub const TPL_TITLE: &'static str = r#"<!DOCTYPE html>
<html>
<head>
    <title>"#;

pub const TPL_OG_URL: &'static str = r#"</title>
    <meta charset="utf-8">
    <meta name="viewport" content="width=device-width,initial-scale=1">
    <meta property="og:url" content=""#;

pub const TPL_OG_TITLE: &'static str = r#"" />
    <meta property="og:type" content="website" />
    <meta property="og:title" content=""#;

pub const TPL_OG_DESCRIPTION: &'static str = r#"" />
    <meta property="og:description" content=""#;

pub const TPL_OG_IMAGE: &'static str = r#"" />
    <meta property="og:image" content=""#;

pub const TPL_TW_TITLE: &'static str = r#"" />

    <meta name="twitter:card" content="summary_large_image">
    <meta name="twitter:title" content=""#;

pub const TPL_TW_DESCRIPTION: &'static str = r#"">
    <meta name="twitter:description" content=""#;

pub const TPL_TW_IMAGE: &'static str = r#"">
    <meta name="twitter:image" content=""#;

pub const TPL_NAVBAR: &'static str = r#"">
    <script src="https://cdn.jsdelivr.net/npm/near-bos-webcomponent@0.0.9/dist/main.1b3f0d7d1017de355a7c.bundle.js"></script>
    <script src="https://cdn.jsdelivr.net/npm/near-bos-webcomponent@0.0.9/dist/runtime.25b143da327a5371509f.bundle.js"></script>
    <style>
        @media screen and (max-width: 600px) {
            .gatewaylinks .nav-link {
                padding-top: 0px!important;
                padding-bottom: 0px!important;
                margin: 0px;
            }
            .gatewaylinks img {
                height: 30px;
            }
        }
    </style>
</head>
<body>
<nav class="navbar navbar-expand-sm navbar-light bg-dark" style="display: flex; flex-wrap: nowrap; padding-left: 5px; padding-right: 5px; height: 73px; border-bottom: rgb(0, 236, 151) solid 5px;">
    <a class="navbar-brand" href="/"><img src="https://i.near.social/magic/large/https://near.social/magic/img/account/"#;

pub const TPL_LINK_ORG: &'static str = r#"" style="height: 68px" /></a>
    <p class="nav-text" style="flex-grow: 1"></p>
    <p class="nav-text text-light" style="margin-top: 1rem; margin-right: 1rem">Choose your gateway</p>
    <div class="navbar-nav gatewaylinks">
        <a href="https://near.org/"#;

pub const TPL_LINK_SOCIAL: &'static str = r#"" class="nav-link">
            <img src="https://ipfs.web4.near.page/ipfs/bafybeia2ptgyoz7b6oxu3k57jmiras2pgigmw7a3cp6osjog67rndmf36y/nearorg.svg" />
        </a>
        <a href="https://near.social/"#;

pub const TPL_VIEWER: &'static str = r#"" class="nav-link">
            <img src="https://ipfs.web4.near.page/ipfs/bafybeia2ptgyoz7b6oxu3k57jmiras2pgigmw7a3cp6osjog67rndmf36y/nearsocial.svg" />
        </a>
    </div>
</nav>
    <near-social-viewer src=""#;

pub const TPL_PROPS: &'static str = r#"/widget/app" initialProps='"#;

pub const TPL_BOOTSTRAP: &'static str = r#"' rpc="https://rpc.mainnet.fastnear.com"></near-social-viewer>
    <script src="/resources/"#;

pub const TPL_HEIGHT: &'static str = r#"/web4browserclient.js?blockHeight="#;

pub const TPL_TAIL: &'static str = r#""></script>
</body>
</html>"#;

/// The full document text: the template with the escaped metadata, links,
/// props literal and script version filled into their slots.
pub open spec fn spec_document(
    title_e: Seq<char>,
    app_name_e: Seq<char>,
    desc_e: Seq<char>,
    image: Seq<char>,
    redirect: Seq<char>,
    props: Seq<char>,
    account: Seq<char>,
    height: u64,
) -> Seq<char> {
    TPL_TITLE@ + title_e + TPL_OG_URL@ + redirect + TPL_OG_TITLE@ + app_name_e + title_e
        + TPL_OG_DESCRIPTION@ + desc_e + TPL_OG_IMAGE@ + image + TPL_TW_TITLE@ + app_name_e
        + title_e + TPL_TW_DESCRIPTION@ + desc_e + TPL_TW_IMAGE@ + image + TPL_NAVBAR@ + account
        + TPL_LINK_ORG@ + redirect + TPL_LINK_SOCIAL@ + redirect + TPL_VIEWER@ + account
        + TPL_PROPS@ + props + TPL_BOOTSTRAP@ + WEB4_RESOURCE_ACCOUNT@ + TPL_HEIGHT@ + spec_dec(
        height as nat,
    ) + TPL_TAIL@
}

/// Renders the document template.
pub fn render_document(
    title_e: &str,
    app_name_e: &str,
    desc_e: &str,
    image: &str,
    redirect: &str,
    props: &str,
    account: &str,
    height: u64,
) -> (r: String)
    ensures
        r@ == spec_document(
            title_e@,
            app_name_e@,
            desc_e@,
            image@,
            redirect@,
            props@,
            account@,
            height,
        ),
{
    let mut out = String::from_str(TPL_TITLE);
    out.append(title_e);
    out.append(TPL_OG_URL);
    out.append(redirect);
    out.append(TPL_OG_TITLE);
    out.append(app_name_e);
    out.append(title_e);
    out.append(TPL_OG_DESCRIPTION);
    out.append(desc_e);
    out.append(TPL_OG_IMAGE);
    out.append(image);
    out.append(TPL_TW_TITLE);
    out.append(app_name_e);
    out.append(title_e);
    out.append(TPL_TW_DESCRIPTION);
    out.append(desc_e);
    out.append(TPL_TW_IMAGE);
    out.append(image);
    out.append(TPL_NAVBAR);
    out.append(account);
    out.append(TPL_LINK_ORG);
    out.append(redirect);
    out.append(TPL_LINK_SOCIAL);
    out.append(redirect);
    out.append(TPL_VIEWER);
    out.append(account);
    out.append(TPL_PROPS);
    out.append(props);
    out.append(TPL_BOOTSTRAP);
    out.append(WEB4_RESOURCE_ACCOUNT);
    out.append(TPL_HEIGHT);
    let h = u64_to_dec(height);
    out.append(h.as_str());
    out.append(TPL_TAIL);
    out
}

} // verus!

verus! {

/// The page-specific parts of the document, as built strings.
pub struct PageParts {
    pub title: String,
    pub description: String,
    pub image: String,
    pub redirect_path: String,
    pub props: String,
}

impl View for PageParts {
    type V = PageData;

    open spec fn view(&self) -> PageData {
        PageData {
            title: self.title@,
            description: self.description@,
            image: self.image@,
            redirect_path: self.redirect_path@,
            props: self.props@,
        }
    }
}

/// Builds the profile-picture URL of `account`.
pub fn profile_image_url(account: &str) -> (r: String)
    ensures
        r@ == profile_image(account@),
{
    let mut out = String::from_str(IMG_PRE);
    out.append(account);
    out
}

fn default_parts(page: &String, base_desc: &String, account: &str) -> (r: PageParts)
    ensures
        r@ =~= default_page_data(page@, base_desc@, account@),
{
    let mut props = String::from_str(PROPS_PAGE_PRE);
    let page_e = escape_json(page.as_str());
    props.append(page_e.as_str());
    props.append(PROPS_END);
    let mut redirect = String::from_str(account);
    redirect.append(REDIR_APP);
    PageParts {
        title: String::new(),
        description: base_desc.clone(),
        image: profile_image_url(account),
        redirect_path: redirect,
        props,
    }
}

fn community_parts(
    page: &String,
    handle: &String,
    regs: &Registries,
    base_desc: &String,
    account: &str,
) -> (r: PageParts)
    ensures
        r@ =~= community_page_data(page@, handle@, regs@, base_desc@, account@),
{
    let found = regs.get_community(handle);
    let (title, description, image) = match found {
        Some(c) => {
            let mut t = String::from_str(TITLE_COMMUNITY);
            t.append(c.name.as_str());
            (t, c.description.clone(), c.logo_url.clone())
        },
        None => {
            let mut t = String::from_str(TITLE_COMMUNITY);
            t.append(handle.as_str());
            (t, base_desc.clone(), profile_image_url(account))
        },
    };
    let mut redirect = String::from_str(account);
    redirect.append(REDIR_QPAGE);
    redirect.append(page.as_str());
    redirect.append(REDIR_HANDLE);
    redirect.append(handle.as_str());
    let mut props = String::from_str(PROPS_HANDLE_PRE);
    let handle_e = escape_json(handle.as_str());
    props.append(handle_e.as_str());
    props.append(PROPS_PAGE_MID);
    let page_e = escape_json(page.as_str());
    props.append(page_e.as_str());
    props.append(PROPS_END);
    PageParts { title, description, image, redirect_path: redirect, props }
}

fn proposal_parts(
    page: &String,
    ident: &String,
    regs: &Registries,
    base_desc: &String,
    account: &str,
) -> (r: PageParts)
    ensures
        r@ =~= proposal_page_data(page@, ident@, regs@, base_desc@, account@),
{
    let (title, description) = match parse_u32(ident.as_str()) {
        Some(id) => match regs.get_proposal(id) {
            Some(p) => {
                let mut t = String::from_str(TITLE_PROPOSAL);
                let d = u64_to_dec(id as u64);
                t.append(d.as_str());
                t.append(TITLE_SEP);
                t.append(p.name.as_str());
                (t, p.summary.clone())
            },
            None => {
                let mut t = String::from_str(TITLE_PROPOSAL);
                let d = u64_to_dec(id as u64);
                t.append(d.as_str());
                (t, base_desc.clone())
            },
        },
        None => (String::from_str(TITLE_PROPOSALS), base_desc.clone()),
    };
    let mut redirect = String::from_str(account);
    redirect.append(REDIR_QPAGE);
    redirect.append(page.as_str());
    redirect.append(REDIR_ID);
    redirect.append(ident.as_str());
    let mut props = String::from_str(PROPS_ID_PRE);
    let ident_e = escape_json(ident.as_str());
    props.append(ident_e.as_str());
    props.append(PROPS_PAGE_MID);
    let page_e = escape_json(page.as_str());
    props.append(page_e.as_str());
    props.append(PROPS_END);
    PageParts { title, description, image: profile_image_url(account), redirect_path: redirect, props }
}

fn rfp_parts(
    page: &String,
    ident: &String,
    regs: &Registries,
    base_desc: &String,
    account: &str,
) -> (r: PageParts)
    ensures
        r@ =~= rfp_page_data(page@, ident@, regs@, base_desc@, account@),
{
    let (title, description) = match parse_u32(ident.as_str()) {
        Some(id) => match regs.get_rfp(id) {
            Some(p) => {
                let mut t = String::from_str(TITLE_RFP);
                let d = u64_to_dec(id as u64);
                t.append(d.as_str());
                t.append(TITLE_SEP);
                t.append(p.name.as_str());
                (t, p.summary.clone())
            },
            None => {
                let mut t = String::from_str(TITLE_RFP);
                let d = u64_to_dec(id as u64);
                t.append(d.as_str());
                (t, base_desc.clone())
            },
        },
        None => (String::from_str(TITLE_RFPS), base_desc.clone()),
    };
    let mut redirect = String::from_str(account);
    redirect.append(REDIR_QPAGE);
    redirect.append(page.as_str());
    redirect.append(REDIR_ID);
    redirect.append(ident.as_str());
    let mut props = String::from_str(PROPS_ID_PRE);
    let ident_e = escape_json(ident.as_str());
    props.append(ident_e.as_str());
    props.append(PROPS_PAGE_MID);
    let page_e = escape_json(page.as_str());
    props.append(page_e.as_str());
    props.append(PROPS_END);
    PageParts { title, description, image: profile_image_url(account), redirect_path: redirect, props }
}

/// Builds the page-specific parts for the dispatched page kind.
fn page_parts(
    page: &String,
    second: Option<&String>,
    regs: &Registries,
    base_desc: &String,
    account: &str,
) -> (r: PageParts)
    ensures
        r@ =~= page_data(
            page@,
            match second {
                Some(s) => Some(s@),
                None => None,
            },
            regs@,
            base_desc@,
            account@,
        ),
{
    match second {
        Some(ident) => {
            if page.eq(&String::from_str(PAGE_COMMUNITY)) {
                community_parts(page, ident, regs, base_desc, account)
            } else if page.eq(&String::from_str(PAGE_PROPOSAL)) {
                proposal_parts(page, ident, regs, base_desc, account)
            } else if page.eq(&String::from_str(PAGE_RFP)) {
                rfp_parts(page, ident, regs, base_desc, account)
            } else {
                default_parts(page, base_desc, account)
            }
        },
        None => default_parts(page, base_desc, account),
    }
}

} // verus!

verus! {

/// The full generic-mode document for a split path, given the two preload
/// lookups' outcomes.
pub open spec fn generic_document(
    segs: Seq<Seq<char>>,
    meta_body: Option<Seq<char>>,
    script_body: Option<Seq<char>>,
    regs: RegistriesModel,
    account: Seq<char>,
    height: u64,
) -> Seq<char> {
    let page = if segs.len() > 1 {
        segs[1]
    } else {
        Seq::<char>::empty()
    };
    let second = if segs.len() > 2 {
        Some(segs[2])
    } else {
        None
    };
    let app_name = meta_app_name(meta_body, account);
    let base_desc = meta_description(meta_body, account);
    let pd = page_data(page, second, regs, base_desc, account);
    spec_document(
        html_escaped(pd.title),
        html_escaped(app_name),
        html_escaped(pd.description),
        pd.image,
        pd.redirect_path,
        pd.props,
        account,
        script_height(script_body, height),
    )
}

/// Generic-mode resolution: without preloads, the two fixed keys are
/// declared, metadata first; with preloads, the document is always
/// rendered, every failed probe falling back to its default.
pub open spec fn generic_response(
    segs: Seq<Seq<char>>,
    preloads: Option<Seq<(Seq<char>, Seq<char>)>>,
    regs: RegistriesModel,
    account: Seq<char>,
    height: u64,
) -> ResponseModel {
    match preloads {
        None => ResponseModel::PreloadUrls {
            preload_urls: seq![metadata_key(account), script_key(account)],
        },
        Some(entries) => ResponseModel::Body {
            content_type: CONTENT_TYPE_HTML@,
            body: b64_encoded_of(
                generic_document(
                    segs,
                    spec_lookup(entries, metadata_key(account)),
                    spec_lookup(entries, script_key(account)),
                    regs,
                    account,
                    height,
                ),
            ),
        },
    }
}

/// The preload map's mathematical content, `None` when the caller supplied
/// none.
pub open spec fn preloads_model(p: Option<Vec<(String, PreloadedContent)>>) -> Option<
    Seq<(Seq<char>, Seq<char>)>,
> {
    match p {
        Some(entries) => Some(entries_view(entries@)),
        None => None,
    }
}

/// Resolves a split path in generic mode.
fn respond_generic(
    parts: &Vec<String>,
    preloads: &Option<Vec<(String, PreloadedContent)>>,
    regs: &Registries,
    account: &str,
    height: u64,
) -> (r: Web4Response)
    ensures
        r@ == generic_response(parts.deep_view(), preloads_model(*preloads), regs@, account@, height),
{
    match preloads {
        None => {
            let keys = vec![build_metadata_key(account), build_script_key(account)];
            proof {
                assert(keys.deep_view() =~= seq![metadata_key(account@), script_key(account@)]);
            }
            Web4Response::PreloadUrls { preload_urls: keys }
        },
        Some(entries) => {
            let ghost entries_m = entries_view(entries@);
            let mkey = build_metadata_key(account);
            let skey = build_script_key(account);
            let ghost meta_body = spec_lookup(entries_m, metadata_key(account@));
            let ghost script_body = spec_lookup(entries_m, script_key(account@));
            let mut app_name = String::from_str(DEFAULT_APP_NAME);
            let mut description = String::from_str(DEFAULT_DESCRIPTION);
            match lookup_body(entries, &mkey) {
                Some(body) => {
                    match b64_decode(body.as_str()) {
                        Some(bytes) => {
                            proof {
                                assert(bytes.deep_view() =~= bytes@);
                            }
                            match json_str5(
                                &bytes,
                                account,
                                JSON_WIDGET,
                                JSON_APP,
                                JSON_METADATA,
                                JSON_NAME,
                            ) {
                                Some(v) => {
                                    app_name = v;
                                },
                                None => {},
                            }
                            match json_str5(
                                &bytes,
                                account,
                                JSON_WIDGET,
                                JSON_APP,
                                JSON_METADATA,
                                JSON_DESCRIPTION,
                            ) {
                                Some(v) => {
                                    description = v;
                                },
                                None => {},
                            }
                        },
                        None => {},
                    }
                },
                None => {},
            }
            proof {
                assert(app_name@ == meta_app_name(meta_body, account@));
                assert(description@ == meta_description(meta_body, account@));
            }
            let mut h = height;
            match lookup_body(entries, &skey) {
                Some(body) => {
                    match b64_decode(body.as_str()) {
                        Some(bytes) => {
                            proof {
                                assert(bytes.deep_view() =~= bytes@);
                            }
                            match json_u64_3(
                                &bytes,
                                WEB4_RESOURCE_ACCOUNT,
                                JSON_WEB4,
                                JSON_BROWSERCLIENT,
                            ) {
                                Some(v) => {
                                    h = v;
                                },
                                None => {},
                            }
                        },
                        None => {},
                    }
                },
                None => {},
            }
            proof {
                assert(h == script_height(script_body, height));
            }
            let page = if parts.len() > 1 {
                parts[1].clone()
            } else {
                String::new()
            };
            let second = if parts.len() > 2 {
                Some(&parts[2])
            } else {
                None
            };
            let pd = page_parts(&page, second, regs, &description, account);
            let title_e = escape_html(pd.title.as_str());
            let app_name_e = escape_html(app_name.as_str());
            let desc_e = escape_html(pd.description.as_str());
            let doc = render_document(
                title_e.as_str(),
                app_name_e.as_str(),
                desc_e.as_str(),
                pd.image.as_str(),
                pd.redirect_path.as_str(),
                pd.props.as_str(),
                account,
                h,
            );
            proof {
                assert(doc@ == generic_document(
                    parts.deep_view(),
                    meta_body,
                    script_body,
                    regs@,
                    account@,
                    height,
                ));
            }
            Web4Response::Body {
                content_type: String::from_str(CONTENT_TYPE_HTML),
                body: b64_encode(doc.as_str()),
            }
        },
    }
}

/// The whole resolution protocol, as a function of the request, the
/// registries, the host account and the current counter.
pub open spec fn spec_resolve(
    req: RequestModel,
    regs: RegistriesModel,
    account: Seq<char>,
    height: u64,
) -> ResponseModel {
    let segs = spec_split_slash(req.path);
    if is_resource_path(segs) {
        let key = resource_key(account, segs[2], segs[3]);
        match req.preloads {
            None => ResponseModel::PreloadUrls { preload_urls: seq![key] },
            Some(entries) => match resource_content(spec_lookup(entries, key), segs[2], segs[3]) {
                Some(content) => ResponseModel::Body {
                    content_type: CONTENT_TYPE_JS@,
                    body: b64_encoded_of(content),
                },
                None => generic_response(segs, req.preloads, regs, account, height),
            },
        }
    } else {
        generic_response(segs, req.preloads, regs, account, height)
    }
}

/// Resolves one request: either declares the preload keys the page needs,
/// or renders the final document from the supplied preloads and registries.
pub fn web4_get(
    request: &Web4Request,
    registries: &Registries,
    current_account_id: &str,
    block_height: u64,
) -> (r: Web4Response)
    ensures
        r@ == spec_resolve(request@, registries@, current_account_id@, block_height),
{
    let parts = split_slash(request.path.as_str());
    let ghost segs = spec_split_slash(request.path@);
    let is_resource = parts.len() >= 4 && parts[1].eq(&String::from_str("resources"));
    proof {
        assert(is_resource == is_resource_path(segs));
    }
    if is_resource {
        let key = build_resource_key(current_account_id, parts[2].as_str(), parts[3].as_str());
        proof {
            assert(key@ == resource_key(current_account_id@, segs[2], segs[3]));
        }
        match &request.preloads {
            None => {
                let keys = vec![key];
                proof {
                    assert(keys.deep_view() =~= seq![
                        resource_key(current_account_id@, segs[2], segs[3]),
                    ]);
                }
                return Web4Response::PreloadUrls { preload_urls: keys };
            },
            Some(entries) => {
                proof {
                    assert(parts.deep_view()[2] == parts@[2]@);
                    assert(parts.deep_view()[3] == parts@[3]@);
                }
                match lookup_body(entries, &key) {
                    Some(body) => {
                        match b64_decode(body.as_str()) {
                            Some(bytes) => {
                                proof {
                                    assert(bytes.deep_view() =~= bytes@);
                                }
                                match json_str3(
                                    &bytes,
                                    parts[2].as_str(),
                                    JSON_WEB4,
                                    parts[3].as_str(),
                                ) {
                                    Some(content) => {
                                        return Web4Response::Body {
                                            content_type: String::from_str(CONTENT_TYPE_JS),
                                            body: b64_encode(content.as_str()),
                                        };
                                    },
                                    None => {},
                                }
                            },
                            None => {},
                        }
                    },
                    None => {},
                }
                proof {
                    assert(resource_content(
                        spec_lookup(entries_view(entries@), key@),
                        segs[2],
                        segs[3],
                    ) is None);
                }
            },
        }
    }
    respond_generic(&parts, &request.preloads, registries, current_account_id, block_height)
}

} // verus!

verus! {

/// Without preloads, resolution always declares at least one needed key,
/// and which keys are declared depends on the path and the host account
/// alone: neither the registries nor the current counter influence them.
pub proof fn lemma_absent_preloads_need_data(
    req: RequestModel,
    regs1: RegistriesModel,
    regs2: RegistriesModel,
    account: Seq<char>,
    height1: u64,
    height2: u64,
)
    requires
        req.preloads is None,
    ensures
        spec_resolve(req, regs1, account, height1) matches ResponseModel::PreloadUrls {
            preload_urls,
        } && preload_urls.len() >= 1,
        spec_resolve(req, regs1, account, height1) == spec_resolve(req, regs2, account, height2),
{
}

/// Replaying with the same path and the same preload map yields the
/// identical response: resolution is a pure function of its inputs.
pub proof fn lemma_replay_is_deterministic(
    r1: RequestModel,
    r2: RequestModel,
    regs: RegistriesModel,
    account: Seq<char>,
    height: u64,
)
    requires
        r1.path == r2.path,
        r1.preloads == r2.preloads,
    ensures
        spec_resolve(r1, regs, account, height) == spec_resolve(r2, regs, account, height),
{
    assert(r1 =~= r2);
}

/// With preloads supplied, resolution always renders a document, whatever
/// the preloaded bodies hold: no re-request and no failure is possible.
pub proof fn lemma_present_preloads_yield_document(
    req: RequestModel,
    regs: RegistriesModel,
    account: Seq<char>,
    height: u64,
)
    requires
        req.preloads is Some,
    ensures
        spec_resolve(req, regs, account, height) is Body,
{
}

/// In generic mode the response depends on the preload map only through
/// what it stores under the two fixed keys: two maps that agree there — in
/// whatever order their entries were inserted — yield the same response.
pub proof fn lemma_preload_order_immaterial(
    path: Seq<char>,
    e1: Seq<(Seq<char>, Seq<char>)>,
    e2: Seq<(Seq<char>, Seq<char>)>,
    regs: RegistriesModel,
    account: Seq<char>,
    height: u64,
)
    requires
        !is_resource_path(spec_split_slash(path)),
        spec_lookup(e1, metadata_key(account)) == spec_lookup(e2, metadata_key(account)),
        spec_lookup(e1, script_key(account)) == spec_lookup(e2, script_key(account)),
    ensures
        spec_resolve(RequestModel { path, preloads: Some(e1) }, regs, account, height)
            == spec_resolve(RequestModel { path, preloads: Some(e2) }, regs, account, height),
{
}

/// A description that contains `<script>` reaches the document only in
/// escaped form: the rendered document contains `&lt;script&gt;`, and the
/// escaped description no longer contains `<script>` at all.
pub proof fn lemma_description_markup_is_escaped(
    title_e: Seq<char>,
    app_name_e: Seq<char>,
    desc: Seq<char>,
    image: Seq<char>,
    redirect: Seq<char>,
    props: Seq<char>,
    account: Seq<char>,
    height: u64,
)
    requires
        crate::escape::has_sub(desc, "<script>"@),
    ensures
        crate::escape::has_sub(
            spec_document(
                title_e,
                app_name_e,
                html_escaped(desc),
                image,
                redirect,
                props,
                account,
                height,
            ),
            "&lt;script&gt;"@,
        ),
        !crate::escape::has_sub(html_escaped(desc), "<script>"@),
{
    crate::escape::lemma_escaping_hides_markup(desc);
    let x = "&lt;script&gt;"@;
    let d = html_escaped(desc);
    let y = TPL_TITLE@ + title_e + TPL_OG_URL@ + redirect + TPL_OG_TITLE@ + app_name_e + title_e
        + TPL_OG_DESCRIPTION@;
    crate::escape::lemma_has_sub_extend_left(y, d, x);
    let s1 = y + d;
    crate::escape::lemma_has_sub_extend_right(s1, TPL_OG_IMAGE@, x);
    let s2 = s1 + TPL_OG_IMAGE@;
    crate::escape::lemma_has_sub_extend_right(s2, image, x);
    let s3 = s2 + image;
    crate::escape::lemma_has_sub_extend_right(s3, TPL_TW_TITLE@, x);
    let s4 = s3 + TPL_TW_TITLE@;
    crate::escape::lemma_has_sub_extend_right(s4, app_name_e, x);
    let s5 = s4 + app_name_e;
    crate::escape::lemma_has_sub_extend_right(s5, title_e, x);
    let s6 = s5 + title_e;
    crate::escape::lemma_has_sub_extend_right(s6, TPL_TW_DESCRIPTION@, x);
    let s7 = s6 + TPL_TW_DESCRIPTION@;
    crate::escape::lemma_has_sub_extend_right(s7, d, x);
    let s8 = s7 + d;
    crate::escape::lemma_has_sub_extend_right(s8, TPL_TW_IMAGE@, x);
    let s9 = s8 + TPL_TW_IMAGE@;
    crate::escape::lemma_has_sub_extend_right(s9, image, x);
    let s10 = s9 + image;
    crate::escape::lemma_has_sub_extend_right(s10, TPL_NAVBAR@, x);
    let s11 = s10 + TPL_NAVBAR@;
    crate::escape::lemma_has_sub_extend_right(s11, account, x);
    let s12 = s11 + account;
    crate::escape::lemma_has_sub_extend_right(s12, TPL_LINK_ORG@, x);
    let s13 = s12 + TPL_LINK_ORG@;
    crate::escape::lemma_has_sub_extend_right(s13, redirect, x);
    let s14 = s13 + redirect;
    crate::escape::lemma_has_sub_extend_right(s14, TPL_LINK_SOCIAL@, x);
    let s15 = s14 + TPL_LINK_SOCIAL@;
    crate::escape::lemma_has_sub_extend_right(s15, redirect, x);
    let s16 = s15 + redirect;
    crate::escape::lemma_has_sub_extend_right(s16, TPL_VIEWER@, x);
    let s17 = s16 + TPL_VIEWER@;
    crate::escape::lemma_has_sub_extend_right(s17, account, x);
    let s18 = s17 + account;
    crate::escape::lemma_has_sub_extend_right(s18, TPL_PROPS@, x);
    let s19 = s18 + TPL_PROPS@;
    crate::escape::lemma_has_sub_extend_right(s19, props, x);
    let s20 = s19 + props;
    crate::escape::lemma_has_sub_extend_right(s20, TPL_BOOTSTRAP@, x);
    let s21 = s20 + TPL_BOOTSTRAP@;
    crate::escape::lemma_has_sub_extend_right(s21, WEB4_RESOURCE_ACCOUNT@, x);
    let s22 = s21 + WEB4_RESOURCE_ACCOUNT@;
    crate::escape::lemma_has_sub_extend_right(s22, TPL_HEIGHT@, x);
    let s23 = s22 + TPL_HEIGHT@;
    crate::escape::lemma_has_sub_extend_right(s23, spec_dec(height as nat), x);
    let s24 = s23 + spec_dec(height as nat);
    crate::escape::lemma_has_sub_extend_right(s24, TPL_TAIL@, x);
    assert(spec_document(title_e, app_name_e, d, image, redirect, props, account, height)
        == s24 + TPL_TAIL@);
}

} // verus!
