use doi::csl::value::ClsDate;

fn read(json: &str) -> Option<ClsDate> {
    let parts: Vec<i64> = serde_json::from_str(json).ok()?;
    ClsDate::from_parts(&parts)
}

fn write(date: &ClsDate) -> Result<String, serde_json::Error> {
    serde_json::to_string(&date.to_parts())
}

#[test]
fn test_deserialize_cls_date() {
    let date = read("[2019, 12, 1]");
    assert!(date.is_some());
    let date = read("[2019, 12]");
    assert!(date.is_some());
    let date = read("[2019]");
    assert!(date.is_some());
}

#[test]
fn test_serialize_cls_date() {
    let date = ClsDate(2019, Some(12), Some(1));
    let serialized = write(&date);
    assert!(serialized.is_ok());
    if let Ok(serialized) = serialized {
        assert_eq!(serialized, "[2019,12,1]");
    }

    let date = ClsDate(2019, Some(12), None);
    let serialized = write(&date);
    assert!(serialized.is_ok());
    if let Ok(serialized) = serialized {
        assert_eq!(serialized, "[2019,12]");
    }

    let date = ClsDate(2019, None, None);
    let serialized = write(&date);
    assert!(serialized.is_ok());
    if let Ok(serialized) = serialized {
        assert_eq!(serialized, "[2019]");
    }

    let date = ClsDate(2019, None, Some(1));
    let serialized = write(&date);
    assert!(serialized.is_ok());
    if let Ok(serialized) = serialized {
        assert_eq!(serialized, "[2019]");
    }
}

#[test]
fn a_date_is_read_from_one_to_three_numbers() {
    assert_eq!(read("[2019, 12, 1]"), Some(ClsDate(2019, Some(12), Some(1))));
    assert_eq!(read("[2019, 12]"), Some(ClsDate(2019, Some(12), None)));
    assert_eq!(read("[-44]"), Some(ClsDate(-44, None, None)));
    assert_eq!(read("[]"), None);
    assert_eq!(read("[2019, 12, 1, 0]"), None);
    assert_eq!(ClsDate::from_parts(&[]), None);
}

#[test]
fn a_written_date_reads_back() {
    for date in [ClsDate(2019, Some(12), Some(1)), ClsDate(2019, Some(12), None), ClsDate(2019, None, None)] {
        assert_eq!(ClsDate::from_parts(&date.to_parts()), Some(date));
    }
    assert_eq!(
        ClsDate::from_parts(&ClsDate(2019, None, Some(1)).to_parts()),
        Some(ClsDate(2019, None, None))
    );
}
