use esim_mailer::error::EmailError;
use esim_mailer::message::{build_message, plan_message};
use esim_mailer::provider::{ParseProviderError, Provider};
use esim_mailer::send::{compose_email, content_id_from, fresh_content_id, prepare_send, submission_outcome};
use esim_mailer::template::{decimal_string, Args, EmailTemplate};
use esim_mailer::text::replace_all;
use esim_mailer::transport::{configure_mailer, transport_profile, AuthMechanism, TlsMode};

fn sample_args(from: &str, bcc: Option<&str>) -> Args {
    Args {
        email_from: from.to_string(),
        email_to: "recipient@example.com".to_string(),
        bcc: bcc.map(|b| b.to_string()),
        provider: "TestProvider".to_string(),
        name: "Test User".to_string(),
        data_amount: "1GB".to_string(),
        time_period: "7 days".to_string(),
        location: "TestLocation".to_string(),
    }
}

#[test]
fn test_email_template_subject() {
    let template = EmailTemplate::new();
    let args = Args {
        email_from: "sender@example.com".to_string(),
        email_to: "recipient@example.com".to_string(),
        bcc: None,
        provider: "TestProvider".to_string(),
        name: "John".to_string(),
        data_amount: "5GB".to_string(),
        time_period: "30 days".to_string(),
        location: "Egypt".to_string(),
    };
    let result = template.subject(&args, 1);
    assert_eq!(result, "[TestProvider] Egypt eSIM - 1");
}

#[test]
fn test_email_template_body() {
    let template = EmailTemplate::new();
    let args = Args {
        email_from: "sender@example.com".to_string(),
        email_to: "recipient@example.com".to_string(),
        bcc: None,
        provider: "TestProvider".to_string(),
        name: "John".to_string(),
        data_amount: "5GB".to_string(),
        time_period: "30 days".to_string(),
        location: "Egypt".to_string(),
    };
    let result = template.body(&args);
    assert!(result.contains("John"));
    assert!(result.contains("TestProvider"));
    assert!(result.contains("5GB"));
    assert!(result.contains("30 days"));
    assert!(result.contains("Egypt"));
}

#[test]
fn parse_valid_provider() {
    let gmail = "foobar@gmail.com".parse::<Provider>();
    assert_eq!(gmail, Ok(Provider::Gmail));

    let outlook = "foobar@outlook.com".parse::<Provider>();
    assert_eq!(outlook, Ok(Provider::Outlook));

    let hotmail = "foobar@hotmail.com".parse::<Provider>();
    assert_eq!(hotmail, Ok(Provider::Outlook));
}

#[test]
fn parse_invalid_provider() {
    let result = "foobar@yahoo.com".parse::<Provider>();
    assert_eq!(result, Err(ParseProviderError("foobar@yahoo.com".into())));
}

#[test]
fn test_configure_mailer_gmail() {
    let result = configure_mailer(&Provider::Gmail, "test@gmail.com", "token".to_string());
    assert!(result.is_ok());
}

#[test]
fn test_configure_mailer_outlook() {
    let result = configure_mailer(&Provider::Outlook, "test@outlook.com", "token".to_string());
    assert!(result.is_ok());
}

#[test]
fn test_provider_display() {
    assert_eq!(Provider::Gmail.to_string(), "Gmail");
    assert_eq!(Provider::Outlook.to_string(), "Outlook");
}

#[test]
fn resolver_uses_last_at_and_exact_domain() {
    assert_eq!(Provider::resolve("a@b@gmail.com"), Ok(Provider::Gmail));
    assert_eq!(Provider::resolve("a@gmail.com@yahoo.com"), Err(ParseProviderError("a@gmail.com@yahoo.com".into())));
    assert_eq!(Provider::resolve("user@Gmail.com"), Err(ParseProviderError("user@Gmail.com".into())));
    assert_eq!(Provider::resolve("user@mail.gmail.com"), Err(ParseProviderError("user@mail.gmail.com".into())));
    assert_eq!(Provider::resolve("gmail.com"), Err(ParseProviderError("gmail.com".into())));
    assert_eq!(Provider::resolve(""), Err(ParseProviderError("".into())));
    assert_eq!(Provider::resolve("@hotmail.com"), Ok(Provider::Outlook));
}

#[test]
fn provider_hosts() {
    assert_eq!(Provider::Gmail.smtp_host(), "smtp.gmail.com");
    assert_eq!(Provider::Outlook.smtp_host(), "smtp-mail.outlook.com");
}

#[test]
fn provider_error_text() {
    let e = EmailError::UnsupportedProvider(ParseProviderError("x@yahoo.com".into()));
    assert_eq!(e.to_string(), "Unsupported email provider: No supported email provider for 'x@yahoo.com'");
    assert_eq!(EmailError::MessageError("m".into()).to_string(), "Email message error: m");
    assert_eq!(EmailError::SmtpError("s".into()).to_string(), "SMTP error: s");
}

#[test]
fn subject_counts_in_decimal() {
    let template = EmailTemplate::new();
    let args = sample_args("a@gmail.com", None);
    assert_eq!(template.subject(&args, 0), "[TestProvider] TestLocation eSIM - 0");
    assert_eq!(template.subject(&args, 1234567), "[TestProvider] TestLocation eSIM - 1234567");
    assert_eq!(decimal_string(usize::MAX), usize::MAX.to_string());
    assert_eq!(decimal_string(10), "10");
}

#[test]
fn body_resolves_the_five_placeholders() {
    let template = EmailTemplate::new();
    let args = sample_args("a@gmail.com", None);
    let body = template.body(&args);
    for token in ["{{provider}}", "{{name}}", "{{data_amount}}", "{{time_period}}", "{{location}}"] {
        assert!(!body.contains(token));
    }
    for value in ["Test User", "TestProvider", "1GB", "7 days", "TestLocation"] {
        assert!(body.contains(value));
    }
    assert!(body.contains("{{QR_CID}}"));
}

#[test]
fn substitution_is_order_dependent() {
    let template = EmailTemplate::new();
    let mut args = sample_args("a@gmail.com", None);
    args.provider = "{{name}}".to_string();
    args.name = "Zed".to_string();
    let body = template.body(&args);
    assert!(!body.contains("{{name}}"));
    args.provider = "P".to_string();
    args.location = "{{name}}".to_string();
    let body = template.body(&args);
    assert!(body.contains("{{name}}"));
}

#[test]
fn replace_all_matches_std() {
    let cases = [("aaaa", "aa", "b"), ("xyz", "q", "r"), ("", "a", "b"), ("abab", "ab", ""), ("héllo wörld", "ö", "o")];
    for (s, p, r) in cases {
        assert_eq!(replace_all(s, p, r), s.replace(p, r));
    }
}

#[test]
fn plan_omits_empty_or_absent_bcc() {
    let cid = "cid@1".to_string();
    let none = plan_message(&sample_args("a@gmail.com", None), "s".into(), "b", cid.clone(), vec![1]);
    assert!(none.bcc.is_none());
    let empty = plan_message(&sample_args("a@gmail.com", Some("")), "s".into(), "b", cid.clone(), vec![1]);
    assert!(empty.bcc.is_none());
    let some = plan_message(&sample_args("a@gmail.com", Some("bcc@example.com")), "s".into(), "b", cid, vec![1]);
    assert_eq!(some.bcc.as_deref(), Some("bcc@example.com"));
}

#[test]
fn plan_binds_html_to_content_id() {
    let plan = plan_message(
        &sample_args("a@gmail.com", None),
        "s".into(),
        "<img src=\"cid:{{QR_CID}}\">",
        "qr_image_cid@abc".to_string(),
        b"fake image data".to_vec(),
    );
    assert_eq!(plan.html, "<img src=\"cid:qr_image_cid@abc\">");
    assert_eq!(plan.content_id, "qr_image_cid@abc");
    assert_eq!(plan.image, b"fake image data".to_vec());
    assert_eq!(plan.from, "a@gmail.com");
    assert_eq!(plan.to, "recipient@example.com");
}

#[test]
fn built_message_headers() {
    let with_bcc = plan_message(&sample_args("a@gmail.com", Some("bcc@example.com")), "Hi".into(), "b {{QR_CID}}", "qr_image_cid@x".into(), vec![1, 2]);
    let msg = build_message(with_bcc).expect("message builds");
    let text = String::from_utf8(msg.formatted()).unwrap();
    assert!(text.contains("From: a@gmail.com"));
    assert!(text.contains("To: recipient@example.com"));
    assert!(text.contains("Subject: Hi"));
    assert!(text.contains("multipart/related"));
    assert!(text.contains("image/png"));
    assert!(text.contains("qr_image_cid@x"));
    let recipients: Vec<String> = msg.envelope().to().iter().map(|a| a.to_string()).collect();
    assert!(recipients.contains(&"bcc@example.com".to_string()));

    let without = plan_message(&sample_args("a@gmail.com", Some("")), "Hi".into(), "b", "c@x".into(), vec![1]);
    let msg = build_message(without).expect("message builds");
    assert_eq!(msg.envelope().to().len(), 1);
}

#[test]
fn invalid_addresses_are_message_errors() {
    let mut args = sample_args("not an address", None);
    let plan = plan_message(&args, "s".into(), "b", "c@x".into(), vec![]);
    match build_message(plan) {
        Err(EmailError::MessageError(m)) => assert!(m.starts_with("Invalid from email address: ")),
        _ => panic!("expected a message error"),
    }
    args.email_from = "a@gmail.com".into();
    args.email_to = "nope".into();
    let plan = plan_message(&args, "s".into(), "b", "c@x".into(), vec![]);
    match build_message(plan) {
        Err(EmailError::MessageError(m)) => assert!(m.starts_with("Invalid to email address: ")),
        _ => panic!("expected a message error"),
    }
    args.email_to = "r@example.com".into();
    args.bcc = Some("bad bcc".into());
    let plan = plan_message(&args, "s".into(), "b", "c@x".into(), vec![]);
    match build_message(plan) {
        Err(EmailError::MessageError(m)) => assert!(m.starts_with("Invalid BCC email address: ")),
        _ => panic!("expected a message error"),
    }
}

#[test]
fn unsupported_sender_is_refused_after_building() {
    let args = sample_args("test@unsupported.com", None);
    match prepare_send(&args, "fake_token".into(), b"fake image data".to_vec(), 1, "cid@x".into()) {
        Err(e) => assert!(e.to_string().contains("Unsupported email provider")),
        Ok(_) => panic!("expected an unsupported provider"),
    }
    let bad_to = Args { email_to: "nope".into(), ..sample_args("test@unsupported.com", None) };
    assert!(matches!(
        compose_email(&bad_to, "t".into(), vec![], 1),
        Err(EmailError::MessageError(_))
    ));
}

#[test]
fn supported_sender_is_prepared() {
    let args = sample_args("test@gmail.com", Some("bcc@example.com"));
    let (_, _, provider) = compose_email(&args, "fake_token".into(), b"fake image data".to_vec(), 1).expect("prepared");
    assert_eq!(provider, Provider::Gmail);
    let no_bcc = sample_args("test@hotmail.com", Some(""));
    let (msg, _, provider) = compose_email(&no_bcc, "t".into(), vec![1], 2).expect("prepared");
    assert_eq!(provider, Provider::Outlook);
    let text = String::from_utf8(msg.formatted()).unwrap();
    assert!(!text.contains("Bcc:"));
    let html_at = text.find("text/html").unwrap();
    let png_at = text.find("image/png").unwrap();
    assert!(html_at < png_at);
}

#[test]
fn content_ids_differ_between_sends() {
    let a = fresh_content_id();
    let b = fresh_content_id();
    assert_ne!(a, b);
    assert!(a.starts_with("qr_image_cid@"));
    assert_eq!(a.len(), "qr_image_cid@".len() + 36);
    assert_eq!(content_id_from("u"), "qr_image_cid@u");
}

#[test]
fn transport_profile_is_fixed() {
    let p = transport_profile(&Provider::Outlook, "me@hotmail.com", "tok".into());
    assert_eq!(p.host, "smtp-mail.outlook.com");
    assert_eq!(p.port, 587);
    assert_eq!(p.tls, TlsMode::Required);
    assert_eq!(p.mechanisms, vec![AuthMechanism::Xoauth2]);
    assert_eq!(p.username, "me@hotmail.com");
    assert_eq!(p.token, "tok");
}

#[test]
fn submission_failure_keeps_the_reason() {
    match submission_outcome(&Provider::Gmail, Err(("mechanism does not expect a challenge".into(), None))) {
        Err(EmailError::SmtpError(m)) => {
            assert_eq!(m, "Could not send email through Gmail: mechanism does not expect a challenge");
            assert!(EmailError::SmtpError(m).to_string().contains("Could not send email"));
        }
        _ => panic!("expected an SMTP error"),
    }
    match submission_outcome(&Provider::Outlook, Err(("permanent error".into(), Some("535 denied".into())))) {
        Err(EmailError::SmtpError(m)) => {
            assert_eq!(m, "Could not send email through Outlook: permanent error (caused by: 535 denied)")
        }
        _ => panic!("expected an SMTP error"),
    }
    assert!(submission_outcome(&Provider::Gmail, Ok(())).is_ok());
}

#[test]
fn test_send_email_invalid_provider() {
    let args = Args {
        email_from: "test@unsupported.com".to_string(),
        email_to: "recipient@example.com".to_string(),
        bcc: None,
        provider: "TestProvider".to_string(),
        name: "Test User".to_string(),
        data_amount: "1GB".to_string(),
        time_period: "7 days".to_string(),
        location: "TestLocation".to_string(),
    };
    let result = compose_email(&args, "fake_token".to_string(), b"fake image data".to_vec(), 1);
    assert!(result.is_err());
    assert!(result.err().unwrap().to_string().contains("Unsupported email provider"));
}
