use osmtools::sources::{SourceNotFoundError, get_bbbike_source};

#[test]
fn test_for_existing_city() -> Result<(), SourceNotFoundError> {
    let existing_city = "Zuerich";
    assert_eq!(
        get_bbbike_source(&existing_city.into())?,
        (
            "zuerich.osm.pbf".into(),
            "https://download.bbbike.org/osm/bbbike/Zuerich/Zuerich.osm.pbf".into()
        )
    );
    Ok(())
}

#[test]
fn test_for_nonexistant_city() {
    let nonexistant_city = "Hogwarts";
    let result = get_bbbike_source(&nonexistant_city.into()).err();
    assert_eq!(
        result,
        Some(SourceNotFoundError::new(nonexistant_city.into()))
    );
}

#[test]
fn test_for_newyorkcity() -> Result<(), SourceNotFoundError> {
    let existing_city = "NewYorkCity";
    assert_eq!(
        get_bbbike_source(&existing_city.into())?,
        (
            "newyorkcity.osm.pbf".into(),
            "https://download.bbbike.org/osm/bbbike/NewYork/NewYork.osm.pbf".into()
        )
    );
    Ok(())
}

#[test]
fn mixed_case_city_is_found() -> Result<(), SourceNotFoundError> {
    let (filename, url) = get_bbbike_source(&"bErLiN".to_string())?;
    assert_eq!(filename, "berlin.osm.pbf");
    assert_eq!(url, "https://download.bbbike.org/osm/bbbike/Berlin/Berlin.osm.pbf");
    Ok(())
}

#[test]
fn source_error_names_the_place() {
    let err = SourceNotFoundError::new("Atlantis".to_string());
    assert_eq!(err.message(), "The required source Atlantis was not found.");
}
