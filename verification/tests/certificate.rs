use grant_stream::certificate_minter::CertificateMinter;

#[test]
fn test_mint_completion_certificate_on_full_payout() {
    let mut client = CertificateMinter::new();

    // Setup grant that reaches 100%
    // Call finish_stream
    let token_id = client.mint_completion_certificate(
        1,
        7,
        8,
        100_000,
        "https://github.com/project/repo".to_string(),
        "Completed grant".to_string(),
        1_000,
    );

    assert!(token_id > 0);
    // Verify metadata contains correct grant_id, repo_url, etc.
    let metadata = client.get_certificate_metadata(token_id);
    assert_eq!(metadata.grant_id, 1);
    assert_eq!(metadata.repo_url, "https://github.com/project/repo");
}

#[test]
fn certificates_are_numbered_in_sequence() {
    let mut m = CertificateMinter::new();
    let a = m.mint_completion_certificate(5, 1, 2, 10, "a".to_string(), "x".to_string(), 100);
    let b = m.mint_completion_certificate(6, 1, 3, 20, "b".to_string(), "y".to_string(), 200);
    assert_eq!((a, b), (1, 2));
    assert_eq!(m.last_token_id, 2);
    assert_eq!(m.owners[&1], 2);
    assert_eq!(m.owners[&2], 3);
    let md = m.get_certificate_metadata(2);
    assert_eq!(md.grant_id, 6);
    assert_eq!(md.dao, 1);
    assert_eq!(md.grantee, 3);
    assert_eq!(md.completion_date, 200);
    assert_eq!(md.total_streamed, 20);
    assert_eq!(md.repo_url, "b");
    assert_eq!(md.description, "y");
}
