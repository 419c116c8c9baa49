use gyazo_client::{GyazoClient, GyazoClientOptions, GyazoError, UploadParamsBuilder};

#[test]
fn test_upload_params_builder() {
    let params = UploadParamsBuilder::new(vec![0, 1, 2, 3])
        .access_policy("anyone")
        .unwrap()
        .metadata_is_public("true")
        .unwrap()
        .referer_url("https://example.com")
        .app("test app")
        .title("test image")
        .desc("test description")
        .created_at("2024-08-10 12:00:00")
        .collection_id("test collection")
        .build();

    assert_eq!(params.imagedata, vec![0, 1, 2, 3]);
    assert_eq!(params.access_policy, Some("anyone".to_string()));
    assert_eq!(params.metadata_is_public, Some("true".to_string()));
    assert_eq!(params.referer_url, Some("https://example.com".to_string()));
    assert_eq!(params.app, Some("test app".to_string()));
    assert_eq!(params.title, Some("test image".to_string()));
    assert_eq!(params.desc, Some("test description".to_string()));
    assert_eq!(params.created_at, Some("2024-08-10 12:00:00".to_string()));
    assert_eq!(params.collection_id, Some("test collection".to_string()));
}

#[test]
fn test_upload_params_builder_invalid_access_policy() {
    let result = UploadParamsBuilder::new(vec![0, 1, 2, 3])
        .access_policy("invalid")
        .unwrap_err();
    assert_eq!(
        result.to_string(),
        "Invalid input: access_policy must be 'anyone' or 'only_me'"
    );
}

#[test]
fn test_upload_params_builder_invalid_metadata_is_public() {
    let result = UploadParamsBuilder::new(vec![0, 1, 2, 3])
        .metadata_is_public("invalid")
        .unwrap_err();
    assert_eq!(
        result.to_string(),
        "Invalid input: metadata_is_public must be 'true' or 'false'"
    );
}

#[test]
fn builder_starts_with_the_image_alone() {
    let params = UploadParamsBuilder::new(vec![9, 8, 7]).build();
    assert_eq!(params.imagedata, vec![9, 8, 7]);
    assert_eq!(params.access_policy, None);
    assert_eq!(params.metadata_is_public, None);
    assert_eq!(params.referer_url, None);
    assert_eq!(params.app, None);
    assert_eq!(params.title, None);
    assert_eq!(params.desc, None);
    assert_eq!(params.created_at, None);
    assert_eq!(params.collection_id, None);
}

#[test]
fn builder_takes_an_empty_image() {
    let params = UploadParamsBuilder::new(Vec::new()).build();
    assert!(params.imagedata.is_empty());
}

#[test]
fn both_access_policies_are_stored_unchanged() {
    let anyone = UploadParamsBuilder::new(vec![1])
        .access_policy("anyone")
        .unwrap()
        .build();
    assert_eq!(anyone.access_policy, Some("anyone".to_string()));
    let only_me = UploadParamsBuilder::new(vec![1])
        .access_policy("only_me")
        .unwrap()
        .build();
    assert_eq!(only_me.access_policy, Some("only_me".to_string()));
}

#[test]
fn both_metadata_flags_are_stored_unchanged() {
    let yes = UploadParamsBuilder::new(vec![1])
        .metadata_is_public("true")
        .unwrap()
        .build();
    assert_eq!(yes.metadata_is_public, Some("true".to_string()));
    let no = UploadParamsBuilder::new(vec![1])
        .metadata_is_public("false")
        .unwrap()
        .build();
    assert_eq!(no.metadata_is_public, Some("false".to_string()));
}

#[test]
fn near_misses_of_access_policy_are_refused() {
    for value in ["", "Anyone", "anyone ", " only_me", "only-me", "true", "anyoneonly_me"] {
        let outcome = UploadParamsBuilder::new(vec![1]).access_policy(value);
        assert!(
            matches!(outcome, Err(GyazoError::InvalidInput(_))),
            "{value:?} was accepted"
        );
    }
}

#[test]
fn near_misses_of_metadata_flag_are_refused() {
    for value in ["", "True", "FALSE", "1", "0", "yes", "anyone", "true "] {
        let outcome = UploadParamsBuilder::new(vec![1]).metadata_is_public(value);
        assert!(
            matches!(outcome, Err(GyazoError::InvalidInput(_))),
            "{value:?} was accepted"
        );
    }
}

#[test]
fn a_later_value_replaces_an_earlier_one() {
    let params = UploadParamsBuilder::new(vec![1])
        .title("first")
        .access_policy("anyone")
        .unwrap()
        .title("second")
        .access_policy("only_me")
        .unwrap()
        .build();
    assert_eq!(params.title, Some("second".to_string()));
    assert_eq!(params.access_policy, Some("only_me".to_string()));
}

#[test]
fn a_setter_leaves_the_other_fields_alone() {
    let params = UploadParamsBuilder::new(vec![5, 6])
        .app("camera")
        .desc("")
        .build();
    assert_eq!(params.imagedata, vec![5, 6]);
    assert_eq!(params.app, Some("camera".to_string()));
    assert_eq!(params.desc, Some(String::new()));
    assert_eq!(params.title, None);
    assert_eq!(params.referer_url, None);
    assert_eq!(params.created_at, None);
    assert_eq!(params.collection_id, None);
}

fn part_names(debug: &str) -> Vec<String> {
    let mut names = Vec::new();
    let mut rest = debug;
    while let Some(at) = rest.find("(\"") {
        let named = !rest[..at].ends_with("Some");
        let tail = &rest[at + 2..];
        let end = tail.find('"').unwrap();
        if named {
            names.push(tail[..end].to_string());
        }
        rest = &tail[end..];
    }
    names
}

fn upload_client() -> GyazoClient {
    GyazoClient::try_new(GyazoClientOptions::default()).unwrap()
}

#[test]
fn full_upload_has_one_part_per_field() {
    let params = UploadParamsBuilder::new(vec![0, 1, 2, 3])
        .access_policy("only_me")
        .unwrap()
        .metadata_is_public("false")
        .unwrap()
        .referer_url("https://example.com")
        .app("test app")
        .title("test image")
        .desc("test description")
        .created_at("2024-08-10 12:00:00")
        .collection_id("test collection")
        .build();
    let form = params.into_form();
    let debug = format!("{form:?}");
    assert_eq!(
        part_names(&debug),
        vec![
            "imagedata",
            "access_policy",
            "metadata_is_public",
            "referer_url",
            "app",
            "title",
            "desc",
            "created_at",
            "collection_id"
        ]
    );
    assert!(debug.contains("image.png"));
}

#[test]
fn bare_upload_has_the_image_and_the_default_visibility() {
    let form = UploadParamsBuilder::new(vec![0, 1, 2, 3]).build().into_form();
    let debug = format!("{form:?}");
    assert_eq!(part_names(&debug), vec!["imagedata", "metadata_is_public"]);
    assert!(debug.contains("image.png"));
}

#[test]
fn unset_fields_are_left_out_of_the_upload() {
    let params = UploadParamsBuilder::new(vec![1])
        .title("only a title")
        .build();
    let call = upload_client().upload_image(params);
    let form = call.form.expect("an upload has a body");
    let debug = format!("{form:?}");
    assert_eq!(
        part_names(&debug),
        vec!["imagedata", "metadata_is_public", "title"]
    );
}

#[test]
fn an_empty_value_is_still_sent() {
    let params = UploadParamsBuilder::new(vec![1]).desc("").build();
    let form = params.into_form();
    assert_eq!(
        part_names(&format!("{form:?}")),
        vec!["imagedata", "metadata_is_public", "desc"]
    );
}
