use mesh_dedup::asset_downloader::{batch_outcome, extract_assetid, FetchError};
use mesh_dedup::engine::is_blank;

#[test]
fn extracts_numeric_id() {
    assert_eq!(extract_assetid("rbxassetid://12345").unwrap(), "12345");
}

#[test]
fn extracts_id_from_url_form() {
    assert_eq!(
        extract_assetid("https://www.roblox.com/asset/?id=90210").unwrap(),
        "90210"
    );
}

#[test]
fn leftmost_maximal_run_wins() {
    assert_eq!(extract_assetid("a12b345").unwrap(), "12");
    assert_eq!(extract_assetid("007x").unwrap(), "007");
}

#[test]
fn no_digits_is_invalid_identifier() {
    assert_eq!(extract_assetid("rbxassetid://"), Err(FetchError::InvalidIdentifier));
    assert_eq!(extract_assetid(""), Err(FetchError::InvalidIdentifier));
}

#[test]
fn batch_outcome_all_or_nothing() {
    assert_eq!(batch_outcome(&vec![true, true, true]), Ok(()));
    assert_eq!(batch_outcome(&vec![]), Ok(()));
    assert_eq!(batch_outcome(&vec![true, false, true]), Err(FetchError::BatchFailed));
    assert_eq!(batch_outcome(&vec![false]), Err(FetchError::BatchFailed));
}

#[test]
fn blankness_after_trimming() {
    assert!(is_blank(""));
    assert!(is_blank("   "));
    assert!(is_blank(" \t\r\n"));
    assert!(!is_blank(" x "));
    assert!(!is_blank("rbxassetid://1"));
}

#[test]
fn digit_run_at_end_of_string() {
    assert_eq!(extract_assetid("abc9").unwrap(), "9");
    assert_eq!(extract_assetid("9").unwrap(), "9");
}
