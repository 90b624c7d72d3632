use base64::Engine;
use devhub_web4::registry::{CommunityView, ProposalView, RFPView, Registries};
use devhub_web4::resolver::{web4_get, PreloadedContent, Web4Request, Web4Response};

const CURRENT_ACCOUNT: &str = "not-only-devhub.near";
const WEB4_RESOURCE_ACCOUNT: &str = "devhub.near";
const PRELOAD_URL: &str = "/web4/contract/social.near/get?keys.json=%5B%22not-only-devhub.near/widget/app/metadata/**%22%5D";

fn b64(s: &str) -> String {
    base64::engine::general_purpose::STANDARD.encode(s)
}

fn b64_decode(s: &str) -> Vec<u8> {
    base64::engine::general_purpose::STANDARD.decode(s).unwrap()
}

fn preload_entry(key: &str, content_type: &str, body: &str) -> (String, PreloadedContent) {
    (
        String::from(key),
        PreloadedContent { content_type: String::from(content_type), body: String::from(body) },
    )
}

fn create_preload_result(title: String, description: String) -> Vec<(String, PreloadedContent)> {
    let body_string = format!(
        "{{\"not-only-devhub.near\":{{\"widget\":{{\"app\":{{\"metadata\":{{\
         \"description\":\"{description}\",\
         \"image\":{{\"ipfs_cid\":\"bafkreido4srg4aj7l7yg2tz22nbu3ytdidjczdvottfr5ek6gqorwg6v74\"}},\
         \"name\":\"{title}\",\
         \"tags\": {{\"devhub\":\"\",\"communities\":\"\",\"developer-governance\":\"\",\"app\":\"\"}}}}}}}}}}}}"
    );
    vec![preload_entry(PRELOAD_URL, "application/json", &b64(&body_string))]
}

fn empty_registries() -> Registries {
    Registries { communities: Vec::new(), proposals: Vec::new(), rfps: Vec::new() }
}

fn resolve(path: &str, preloads: Option<Vec<(String, PreloadedContent)>>) -> Web4Response {
    resolve_with(path, preloads, empty_registries())
}

fn resolve_with(
    path: &str,
    preloads: Option<Vec<(String, PreloadedContent)>>,
    registries: Registries,
) -> Web4Response {
    let request = Web4Request { path: String::from(path), preloads };
    web4_get(&request, &registries, CURRENT_ACCOUNT, 0)
}

#[test]
pub fn test_preload_url_response() {
    let response_before_preload = resolve("/", None);
    match response_before_preload {
        Web4Response::PreloadUrls { preload_urls } => {
            assert_eq!(PRELOAD_URL, preload_urls.get(0).unwrap())
        }
        _ => {
            panic!("Should return Web4Response::PreloadUrls");
        }
    }
}

#[test]
pub fn test_response_with_preload_content() {
    let response = resolve(
        "/",
        Some(create_preload_result(
            String::from("NotOnlyDevHub"),
            String::from("A description of any devhub portal instance, not just devhub itself"),
        )),
    );
    match response {
        Web4Response::Body { content_type, body } => {
            assert_eq!("text/html; charset=UTF-8", content_type);

            let body_string = String::from_utf8(b64_decode(&body)).unwrap();

            assert!(body_string.contains(
                "<meta property=\"og:description\" content=\"A description of any devhub portal instance, not just devhub itself\" />"
            ));
            assert!(body_string.contains("<meta property=\"og:title\" content=\"NotOnlyDevHub\" />"));
        }
        _ => {
            panic!("Should return Web4Response::Body");
        }
    }
}

#[test]
pub fn test_response_with_empty_preload_content() {
    let response = resolve(
        "/",
        Some(vec![preload_entry(PRELOAD_URL, "application/json", "")]),
    );
    match response {
        Web4Response::Body { content_type, body } => {
            assert_eq!("text/html; charset=UTF-8", content_type);

            let body_string = String::from_utf8(b64_decode(&body)).unwrap();

            assert!(body_string.contains(
                "<meta property=\"og:description\" content=\"The decentralized home base for NEAR builders\" />"
            ));
            assert!(body_string.contains("<meta property=\"og:title\" content=\"near/dev/hub\" />"));
        }
        _ => {
            panic!("Should return Web4Response::Body");
        }
    }
}

#[test]
pub fn test_logo() {
    let response = resolve(
        "/proposal/1",
        Some(create_preload_result(String::from("title"), String::from("description"))),
    );
    match response {
        Web4Response::Body { content_type, body } => {
            assert_eq!("text/html; charset=UTF-8", content_type);

            let body_string = String::from_utf8(b64_decode(&body)).unwrap();
            assert!(body_string.contains("<a class=\"navbar-brand\" href=\"/\"><img src=\"https://i.near.social/magic/large/https://near.social/magic/img/account/not-only-devhub.near\" style=\"height: 68px\" /></a>"));
            assert!(body_string.contains("<meta property=\"og:image\" content=\"https://i.near.social/magic/large/https://near.social/magic/img/account/not-only-devhub.near\" />"));
            assert!(body_string.contains("<meta name=\"twitter:image\" content=\"https://i.near.social/magic/large/https://near.social/magic/img/account/not-only-devhub.near\">"));
            let expected_initial_props_string = "{\"id\":\"1\",\"page\":\"proposal\"}";
            assert!(body_string.contains(expected_initial_props_string));
        }
        _ => {
            panic!("Should return Web4Response::Body");
        }
    }
}

#[test]
pub fn test_community_path() {
    let registries = Registries {
        communities: vec![CommunityView {
            handle: String::from("webassemblymusic"),
            name: String::from("WebAssembly Music"),
            description: String::from("Music stored forever in the NEAR blockchain"),
            logo_url: String::from("https://ipfs.near.social/ipfs/bafybeiesrsf4fpdmlfgcnxpuxiqlgw2lk3bietdt25mvumrjk5yhf2c54e"),
        }],
        proposals: Vec::new(),
        rfps: Vec::new(),
    };

    let response = resolve_with(
        "/community/webassemblymusic",
        Some(create_preload_result(String::from("title"), String::from("description"))),
        registries,
    );
    match response {
        Web4Response::Body { content_type, body } => {
            assert_eq!("text/html; charset=UTF-8", content_type);

            let body_string = String::from_utf8(b64_decode(&body)).unwrap();

            assert!(body_string.contains("<meta property=\"og:description\" content=\"Music stored forever in the NEAR blockchain\" />"));
            assert!(body_string
                .contains("<meta name=\"twitter:title\" content=\"title - Community - WebAssembly Music\">"));
            assert!(body_string.contains("https://near.social/not-only-devhub.near/widget/app?page=community&handle=webassemblymusic"));
            let expected_initial_props_string =
                "{\"handle\":\"webassemblymusic\",\"page\":\"community\"}";
            assert!(body_string.contains(expected_initial_props_string));
        }
        _ => {
            panic!("Should return Web4Response::Body");
        }
    }
}

#[test]
pub fn test_web4_unknown_path() {
    for unknown_path in &["/", "/unknown", "/unknown/path"] {
        let response = resolve(
            unknown_path,
            Some(create_preload_result(
                String::from("near/dev/hub"),
                String::from("The decentralized home base for NEAR builders"),
            )),
        );
        match response {
            Web4Response::Body { content_type, body } => {
                assert_eq!("text/html; charset=UTF-8", content_type);

                let body_string = String::from_utf8(b64_decode(&body)).unwrap();

                assert!(body_string.contains("<meta name=\"twitter:description\" content=\"The decentralized home base for NEAR builders\">"));
                assert!(body_string.contains("<meta name=\"twitter:title\" content=\"near/dev/hub\">"));
                assert!(body_string.contains("https://near.social/not-only-devhub.near/widget/app"));
            }
            _ => {
                panic!("Should return Web4Response::Body for '{}' path", unknown_path);
            }
        }
    }
}

#[test]
pub fn test_web4_unknown_community() {
    let response = resolve(
        "/community/blablablablabla",
        Some(create_preload_result(
            String::from("near/dev/hub"),
            String::from("The decentralized home base for NEAR builders"),
        )),
    );
    match response {
        Web4Response::Body { content_type, body } => {
            assert_eq!("text/html; charset=UTF-8", content_type);

            let body_string = String::from_utf8(b64_decode(&body)).unwrap();

            assert!(body_string.contains("<meta name=\"twitter:description\" content=\"The decentralized home base for NEAR builders\">"));
            assert!(body_string.contains(
                "<meta name=\"twitter:title\" content=\"near/dev/hub - Community - blablablablabla\">"
            ));
            assert!(body_string.contains("https://near.social/not-only-devhub.near/widget/app"));
            assert!(body_string.contains("https://near.org/not-only-devhub.near/widget/app"));
            let expected_initial_props_string =
                "{\"handle\":\"blablablablabla\",\"page\":\"community\"}";
            assert!(body_string.contains(expected_initial_props_string));
        }
        _ => {
            panic!("Should return Web4Response::Body");
        }
    }
}

#[test]
pub fn test_web4_community_missing_handle() {
    let response = resolve(
        "/community",
        Some(create_preload_result(
            String::from("near/dev/hub"),
            String::from("The decentralized home base for NEAR builders"),
        )),
    );
    match response {
        Web4Response::Body { content_type, body } => {
            assert_eq!("text/html; charset=UTF-8", content_type);

            let body_string = String::from_utf8(b64_decode(&body)).unwrap();

            assert!(body_string.contains("<meta name=\"twitter:description\" content=\"The decentralized home base for NEAR builders\">"));
            assert!(body_string.contains("<meta name=\"twitter:title\" content=\"near/dev/hub\">"));
            assert!(body_string.contains("https://near.social/not-only-devhub.near/widget/app"));
            assert!(body_string.contains("https://near.org/not-only-devhub.near/widget/app"));
            let expected_initial_props_string = "{\"page\":\"community\"}";
            assert!(body_string.contains(expected_initial_props_string));
        }
        _ => {
            panic!("Should return Web4Response::Body");
        }
    }
}

#[test]
pub fn test_proposal_path() {
    let registries = Registries {
        communities: Vec::new(),
        proposals: vec![ProposalView {
            name: String::from("The best proposal ever"),
            summary: String::from("It is obvious why this proposal is so great"),
        }],
        rfps: Vec::new(),
    };

    let response = resolve_with(
        "/proposal/0",
        Some(create_preload_result(
            String::from("near/dev/hub"),
            String::from("The decentralized home base for NEAR builders"),
        )),
        registries,
    );
    match response {
        Web4Response::Body { content_type, body } => {
            assert_eq!("text/html; charset=UTF-8", content_type);

            let body_string = String::from_utf8(b64_decode(&body)).unwrap();

            assert!(body_string.contains("<meta property=\"og:description\" content=\"It is obvious why this proposal is so great\" />"));
            assert!(body_string.contains(
                "<meta name=\"twitter:title\" content=\"near/dev/hub - Proposal #0 - The best proposal ever\">"
            ));
            assert!(body_string
                .contains("https://near.social/not-only-devhub.near/widget/app?page=proposal&id=0"));
            assert!(body_string
                .contains("https://near.org/not-only-devhub.near/widget/app?page=proposal&id=0"));
            let expected_initial_props_string = "{\"id\":\"0\",\"page\":\"proposal\"}";
            assert!(body_string.contains(expected_initial_props_string));
        }
        _ => {
            panic!("Should return Web4Response::Body");
        }
    }
}

#[test]
pub fn test_proposal_with_html_tag_in_summary() {
    let registries = Registries {
        communities: Vec::new(),
        proposals: vec![ProposalView {
            name: String::from("The best proposal ever"),
            summary: String::from(
                "It is obvious why this <script>alert('hello');</script> proposal is so great",
            ),
        }],
        rfps: Vec::new(),
    };

    let response = resolve_with(
        "/proposal/0",
        Some(create_preload_result(
            String::from("near/dev/hub"),
            String::from("The decentralized home base for NEAR builders"),
        )),
        registries,
    );
    match response {
        Web4Response::Body { content_type, body } => {
            assert_eq!("text/html; charset=UTF-8", content_type);

            let body_string = String::from_utf8(b64_decode(&body)).unwrap();

            assert!(body_string.contains("<meta property=\"og:description\" content=\"It is obvious why this &lt;script&gt;alert('hello');&lt;/script&gt; proposal is so great\" />"));
            assert!(body_string.contains(
                "<meta name=\"twitter:title\" content=\"near/dev/hub - Proposal #0 - The best proposal ever\">"
            ));
            assert!(body_string
                .contains("https://near.social/not-only-devhub.near/widget/app?page=proposal&id=0"));
            assert!(body_string
                .contains("https://near.org/not-only-devhub.near/widget/app?page=proposal&id=0"));
            let expected_initial_props_string = "{\"id\":\"0\",\"page\":\"proposal\"}";
            assert!(body_string.contains(expected_initial_props_string));
        }
        _ => {
            panic!("Should return Web4Response::Body");
        }
    }
}

#[test]
pub fn test_proposal_path_unknown() {
    let response = resolve(
        "/proposal/1",
        Some(create_preload_result(
            String::from("near/dev/hub"),
            String::from("The decentralized home base for NEAR builders"),
        )),
    );
    match response {
        Web4Response::Body { content_type, body } => {
            assert_eq!("text/html; charset=UTF-8", content_type);

            let body_string = String::from_utf8(b64_decode(&body)).unwrap();

            assert!(body_string.contains("<meta name=\"twitter:description\" content=\"The decentralized home base for NEAR builders\">"));
            assert!(body_string
                .contains("<meta name=\"twitter:title\" content=\"near/dev/hub - Proposal #1\">"));
            assert!(body_string.contains("https://near.social/not-only-devhub.near/widget/app"));
            let expected_initial_props_string = "{\"id\":\"1\",\"page\":\"proposal\"}";
            assert!(body_string.contains(expected_initial_props_string));
        }
        _ => {
            panic!("Should return Web4Response::Body");
        }
    }
}

#[test]
pub fn test_proposal_path_incomplete() {
    let response = resolve(
        "/proposal",
        Some(create_preload_result(
            String::from("near/dev/hub"),
            String::from("The decentralized home base for NEAR builders"),
        )),
    );
    match response {
        Web4Response::Body { content_type, body } => {
            assert_eq!("text/html; charset=UTF-8", content_type);

            let body_string = String::from_utf8(b64_decode(&body)).unwrap();

            assert!(body_string.contains("<meta name=\"twitter:description\" content=\"The decentralized home base for NEAR builders\">"));
            assert!(body_string.contains("<meta name=\"twitter:title\" content=\"near/dev/hub\">"));
            assert!(body_string.contains("https://near.social/not-only-devhub.near/widget/app"));
            let expected_initial_props_string = "{\"page\":\"proposal\"}";
            assert!(body_string.contains(expected_initial_props_string));
        }
        _ => {
            panic!("Should return Web4Response::Body");
        }
    }
}

#[test]
pub fn test_rfp_path() {
    let registries = Registries {
        communities: Vec::new(),
        proposals: Vec::new(),
        rfps: vec![RFPView {
            name: String::from("The best rfp ever"),
            summary: String::from("It is obvious why this rfp is so great"),
        }],
    };

    let response = resolve_with(
        "/rfp/0",
        Some(create_preload_result(
            String::from("near/dev/hub"),
            String::from("The decentralized home base for NEAR builders"),
        )),
        registries,
    );
    match response {
        Web4Response::Body { content_type, body } => {
            assert_eq!("text/html; charset=UTF-8", content_type);

            let body_string = String::from_utf8(b64_decode(&body)).unwrap();

            assert!(body_string.contains("<meta property=\"og:description\" content=\"It is obvious why this rfp is so great\" />"));
            assert!(body_string.contains(
                "<meta name=\"twitter:title\" content=\"near/dev/hub - RFP #0 - The best rfp ever\">"
            ));
            assert!(body_string
                .contains("https://near.social/not-only-devhub.near/widget/app?page=rfp&id=0"));
            assert!(body_string
                .contains("https://near.org/not-only-devhub.near/widget/app?page=rfp&id=0"));
            let expected_initial_props_string = "{\"id\":\"0\",\"page\":\"rfp\"}";
            assert!(body_string.contains(expected_initial_props_string));
        }
        _ => {
            panic!("Should return Web4Response::Body");
        }
    }
}

#[test]
pub fn test_load_script_from_web4_path() {
    let preload_js_url = format!(
        "https://{}.page/web4/contract/social.near/get?keys.json=%5B%22{}/web4/test.js%22%5D",
        CURRENT_ACCOUNT, WEB4_RESOURCE_ACCOUNT
    );

    // Simulated preloaded content
    let preloaded_content = format!(
        "{{\"{}\":{{\"web4\":{{\"test.js\": \"console.log('hello again');\"}}}}}}",
        WEB4_RESOURCE_ACCOUNT
    );

    let preloaded_body_base64 = b64(&preloaded_content);

    println!("preloadurl {}", preload_js_url.clone());
    let response = resolve(
        &format!("/resources/{}/test.js", WEB4_RESOURCE_ACCOUNT),
        Some(vec![preload_entry(&preload_js_url, "application/json", &preloaded_body_base64)]),
    );

    match response {
        Web4Response::Body { content_type, body } => {
            assert_eq!("application/javascript", content_type);
            assert_eq!(
                "console.log('hello again');",
                String::from_utf8(b64_decode(&body)).unwrap()
            );
        }
        _ => {
            panic!("Should return Web4Response::Body with JavaScript content");
        }
    }
}

#[test]
pub fn test_web4browserclient_block_height() {
    let web4browserclient_preload_url = format!(
        "https://{}.page/web4/contract/social.near/keys?keys.json=%5B%22{}/web4/web4browserclient.js%22%5D&options.json=%7B%22return_type%22%3A%22BlockHeight%22%7D",
        CURRENT_ACCOUNT, WEB4_RESOURCE_ACCOUNT
    );

    // Simulated preloaded content with block height
    let block_height = 127038880u64;
    let preloaded_content = format!(
        "{{\"{}\": {{\"web4\": {{\"web4browserclient.js\": {}}}}}}}",
        WEB4_RESOURCE_ACCOUNT, block_height
    );

    let preloaded_body_base64 = b64(&preloaded_content);

    let response = resolve(
        "/",
        Some(vec![
            preload_entry(&web4browserclient_preload_url, "application/json", &preloaded_body_base64),
            preload_entry(PRELOAD_URL, "application/json", ""),
        ]),
    );

    match response {
        Web4Response::Body { content_type, body } => {
            assert_eq!("text/html; charset=UTF-8", content_type);

            let body_string = String::from_utf8(b64_decode(&body)).unwrap();

            // Check if the block height is correctly included in the script URL
            assert!(body_string.contains(&format!(
                "<script src=\"/resources/{}/web4browserclient.js?blockHeight={}\"></script>",
                WEB4_RESOURCE_ACCOUNT, block_height
            )));
        }
        _ => {
            panic!("Should return Web4Response::Body with the correct HTML content");
        }
    }
}
