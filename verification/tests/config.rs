use newsletter::config::AppConfig;

#[test]
fn default_config_names_the_local_files() {
    let cfg = AppConfig::default();
    assert_eq!(cfg.email_domain, "localhost");
    assert_eq!(cfg.email_user, "");
    assert_eq!(cfg.email_pass, "");
    assert_eq!(cfg.database_path, "./newsletter.sqlite");
    assert_eq!(cfg.content_html_path, "./message.html");
    assert_eq!(cfg.unsubscribe_url, "localhost/unsubscribe/?email=");
}
