use gyazo_client::{
    DeleteImageResponse, GyazoClient, GyazoClientOptions, GyazoError, GyazoImageResponse, Method,
    OembedResponse, UploadImageResponse, UploadParamsBuilder,
};

const SERVER: &str = "http://127.0.0.1:1234";

fn client_for_api() -> GyazoClient {
    GyazoClient::try_new(GyazoClientOptions {
        access_token: "fake_token".to_string(),
        base_url: Some(SERVER.to_string()),
        upload_url: None,
    })
    .expect("base_url must be a valid URL")
}

#[test]
fn test_get_image() {
    let mock_response = r#"
        {
            "image_id": "abc123",
            "permalink_url": "https://gyazo.com/abc123",
            "thumb_url": "https://thumb.gyazo.com/thumb/abc123",
            "type": "png",
            "created_at": "2024-08-10 12:00:00",
            "metadata": {
                "app": null,
                "title": null,
                "url": null,
                "desc": null
            },
            "ocr": null
        }
        "#;

    let client = client_for_api();
    let call = client.get_image("abc123");
    assert_eq!(call.method, Method::Get);
    assert_eq!(call.path, "/api/images/abc123");
    assert!(call.form.is_none());
    let request = client.try_request(call).expect("path must be a valid URL");
    assert_eq!(request.method, Method::Get);
    assert_eq!(request.url, "http://127.0.0.1:1234/api/images/abc123");
    assert_eq!(request.bearer_token, "fake_token");
    assert!(request.form.is_none());

    let result = GyazoImageResponse::from_response(200, Ok(mock_response.to_string()));

    assert!(result.is_ok());
    let image = result.unwrap();
    assert_eq!(image.image_id, "abc123");
    assert_eq!(
        image.permalink_url,
        Some("https://gyazo.com/abc123".to_string())
    );
    assert_eq!(
        image.thumb_url,
        Some("https://thumb.gyazo.com/thumb/abc123".to_string())
    );
    assert_eq!(image.image_type, "png");
    assert_eq!(image.created_at, "2024-08-10 12:00:00");
    assert_eq!(image.metadata.app, None);
    assert_eq!(image.metadata.title, None);
    assert_eq!(image.metadata.url, None);
    assert_eq!(image.metadata.desc, None);
    assert!(image.ocr.is_none());
}

#[test]
fn test_list_images() {
    let mock_response = r#"
        [
            {
                "image_id": "abc123",
                "permalink_url": "https://gyazo.com/abc123",
                "thumb_url": "https://thumb.gyazo.com/thumb/abc123",
                "type": "png",
                "created_at": "2024-08-10 12:00:00",
                "metadata": {
                    "app": null,
                    "title": null,
                    "url": null,
                    "desc": null
                },
                "ocr": null
            }
        ]
        "#;

    let client = client_for_api();
    let call = client.list_images();
    assert_eq!(call.method, Method::Get);
    assert_eq!(call.path, "/api/images");
    let request = client.try_request(call).expect("path must be a valid URL");
    assert_eq!(request.url, "http://127.0.0.1:1234/api/images");
    assert_eq!(request.bearer_token, "fake_token");

    let result = GyazoImageResponse::list_from_response(200, Ok(mock_response.to_string()));

    assert!(result.is_ok());
    let images = result.unwrap();
    assert_eq!(images.len(), 1);
    assert_eq!(images[0].image_id, "abc123");
}

#[test]
fn test_upload_image() {
    let mock_response = r#"
    {
        "image_id": "abc123",
        "permalink_url": "https://gyazo.com/abc123",
        "thumb_url": "https://thumb.gyazo.com/thumb/abc123",
        "url": "https://i.gyazo.com/abc123.png",
        "type": "png"
    }
    "#;

    let client = GyazoClient::try_new(GyazoClientOptions {
        access_token: "fake_token".to_string(),
        base_url: None,
        upload_url: Some(SERVER.to_string()),
    })
    .expect("upload_url must be a valid URL");
    let params = UploadParamsBuilder::new(vec![0, 1, 2, 3])
        .title("test image")
        .build();
    let call = client.upload_image(params);
    assert_eq!(call.method, Method::Post);
    assert_eq!(call.path, "/api/upload");
    assert!(call.form.is_some());
    let request = client.try_request(call).expect("path must be a valid URL");
    assert_eq!(request.method, Method::Post);
    assert_eq!(request.url, "http://127.0.0.1:1234/api/upload");
    assert_eq!(request.bearer_token, "fake_token");
    assert!(request.form.is_some());

    let result = UploadImageResponse::from_response(200, Ok(mock_response.to_string()));

    assert!(result.is_ok());
    let image = result.unwrap();
    assert_eq!(image.image_id, "abc123");
    assert_eq!(image.permalink_url, "https://gyazo.com/abc123".to_string());
    assert_eq!(image.thumb_url, "https://thumb.gyazo.com/thumb/abc123");
    assert_eq!(image.url, "https://i.gyazo.com/abc123.png");
    assert_eq!(image.image_type, "png");
}

#[test]
fn test_delete_image() {
    let mock_response = r#"
        {
            "image_id": "abc123",
            "type": "png"
        }
        "#;

    let client = client_for_api();
    let call = client.delete_image("abc123");
    assert_eq!(call.method, Method::Delete);
    assert_eq!(call.path, "/api/images/abc123");
    let request = client.try_request(call).expect("path must be a valid URL");
    assert_eq!(request.method, Method::Delete);
    assert_eq!(request.url, "http://127.0.0.1:1234/api/images/abc123");
    assert_eq!(request.bearer_token, "fake_token");

    let result = DeleteImageResponse::from_response(200, Ok(mock_response.to_string()));

    assert!(result.is_ok());
    let image = result.unwrap();
    assert_eq!(image.image_id, "abc123");
    assert_eq!(image.image_type, "png");
}

#[test]
fn test_get_oembed() {
    let mock_response = r#"
        {
            "version": "1.0",
            "type": "photo",
            "provider_name": "Gyazo",
            "provider_url": "https://gyazo.com",
            "url": "https://i.gyazo.com/abc123.png",
            "width": 400,
            "height": 300
        }
        "#;

    let client = client_for_api();
    let call = client
        .get_oembed("https://gyazo.com/abc123")
        .expect("a URL on gyazo.com is accepted");
    assert_eq!(call.method, Method::Get);
    assert_eq!(call.path, "/api/oembed?url=https://gyazo.com/abc123");
    let request = client.try_request(call).expect("path must be a valid URL");
    assert_eq!(
        request.url,
        "http://127.0.0.1:1234/api/oembed?url=https://gyazo.com/abc123"
    );
    assert_eq!(request.bearer_token, "fake_token");

    let result = OembedResponse::from_response(200, Ok(mock_response.to_string()));

    assert!(result.is_ok());
    let oembed = result.unwrap();
    assert_eq!(oembed.version, "1.0");
    assert_eq!(oembed.image_type, "photo");
    assert_eq!(oembed.provider_name, "Gyazo");
    assert_eq!(oembed.provider_url, "https://gyazo.com");
    assert_eq!(oembed.url, "https://i.gyazo.com/abc123.png");
    assert_eq!(oembed.width, 400);
    assert_eq!(oembed.height, 300);
}

#[test]
fn test_get_oembed_invalid_url() {
    let client = GyazoClient::try_new(GyazoClientOptions {
        access_token: "fake_token".to_string(),
        ..Default::default()
    })
    .expect("the default addresses are valid URLs");
    let result = client.get_oembed("https://example.com/abc123");
    assert!(result.is_err());
    assert_eq!(
        result.unwrap_err().to_string(),
        "Invalid url: URL must start with 'https://gyazo.com/'"
    );
}

#[test]
fn oembed_prefix_must_be_whole() {
    let client = client_for_api();
    assert!(matches!(
        client.get_oembed("https://gyazo.com"),
        Err(GyazoError::InvalidUrl(_))
    ));
    assert!(matches!(
        client.get_oembed(""),
        Err(GyazoError::InvalidUrl(_))
    ));
    assert!(matches!(
        client.get_oembed("http://gyazo.com/abc123"),
        Err(GyazoError::InvalidUrl(_))
    ));
    let call = client.get_oembed("https://gyazo.com/").unwrap();
    assert_eq!(call.path, "/api/oembed?url=https://gyazo.com/");
}

#[test]
fn default_origins_are_used() {
    let client = GyazoClient::try_new(GyazoClientOptions {
        access_token: "token".to_string(),
        ..Default::default()
    })
    .unwrap();
    let api = client.try_request(client.list_images()).unwrap();
    assert_eq!(api.url, "https://api.gyazo.com/api/images");
    let params = UploadParamsBuilder::new(vec![7]).build();
    let upload = client.try_request(client.upload_image(params)).unwrap();
    assert_eq!(upload.url, "https://upload.gyazo.com/api/upload");
}

#[test]
fn origins_are_configured_apart() {
    let client = GyazoClient::try_new(GyazoClientOptions {
        access_token: "token".to_string(),
        base_url: Some("http://api.test:8080".to_string()),
        upload_url: Some("http://upload.test:9090".to_string()),
    })
    .unwrap();
    let api = client.try_request(client.get_image("x1")).unwrap();
    assert_eq!(api.url, "http://api.test:8080/api/images/x1");
    let gone = client.try_request(client.delete_image("x1")).unwrap();
    assert_eq!(gone.url, "http://api.test:8080/api/images/x1");
    let params = UploadParamsBuilder::new(vec![7]).build();
    let upload = client.try_request(client.upload_image(params)).unwrap();
    assert_eq!(upload.url, "http://upload.test:9090/api/upload");
}

#[test]
fn unparsable_addresses_make_no_client() {
    assert!(GyazoClient::try_new(GyazoClientOptions {
        access_token: "token".to_string(),
        base_url: Some("not a url".to_string()),
        upload_url: None,
    })
    .is_none());
    assert!(GyazoClient::try_new(GyazoClientOptions {
        access_token: "token".to_string(),
        base_url: None,
        upload_url: Some("".to_string()),
    })
    .is_none());
}

#[test]
fn new_takes_valid_addresses() {
    let client = GyazoClient::new(GyazoClientOptions {
        access_token: "secret".to_string(),
        base_url: Some("http://localhost:3000".to_string()),
        upload_url: Some("http://localhost:3001".to_string()),
    });
    let request = client.request(client.list_images());
    assert_eq!(request.url, "http://localhost:3000/api/images");
    assert_eq!(request.bearer_token, "secret");
}

#[test]
fn default_options_are_empty() {
    let options = GyazoClientOptions::default();
    assert_eq!(options.access_token, "");
    assert!(options.base_url.is_none());
    assert!(options.upload_url.is_none());
}
