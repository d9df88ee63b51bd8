//! The catalogue of downloadable city extracts.
use crate::tags::lower_of;
use crate::tags::lowercase;
use crate::tags::str_eq;
use vstd::prelude::*;

verus! {

/// The error of asking for a place the catalogue does not know: names the
/// place that was asked for.
#[derive(Debug, PartialEq)]
pub struct SourceNotFoundError {
    source_name: String,
}

impl SourceNotFoundError {
    /// The name of the place that was asked for.
    pub closed spec fn spec_source_name(&self) -> Seq<char> {
        self.source_name@
    }

    pub fn new(source_name: String) -> (r: SourceNotFoundError)
        ensures
            r.spec_source_name() == source_name@,
    {
        SourceNotFoundError { source_name }
    }

    /// A readable account of the error.
    pub fn message(&self) -> (r: String)
        ensures
            r@ == "The required source "@ + self.spec_source_name() + " was not found."@,
    {
        let mut r = "The required source ".to_owned();
        r.append(self.source_name.as_str());
        r.append(" was not found.");
        r
    }
}

/// The known city names, as the catalogue spells them.
pub open spec fn city_list() -> Seq<&'static str> {
    seq![
        "Aachen", "Aarhus", "Adelaide", "Albuquerque", "Alexandria", "Amsterdam",
        "Antwerpen", "Arnhem", "Auckland", "Augsburg", "Austin", "Baghdad",
        "Baku", "Balaton", "Bamberg", "Bangkok", "Barcelona", "Basel",
        "Beijing", "Beirut", "Berkeley", "Berlin", "Bern", "Bielefeld",
        "Birmingham", "Bochum", "Bogota", "Bombay", "Bonn", "Bordeaux",
        "Boulder", "BrandenburgHavel", "Braunschweig", "Bremen", "Bremerhaven", "Brisbane",
        "Bristol", "Brno", "Bruegge", "Bruessel", "Budapest", "BuenosAires",
        "Cairo", "Calgary", "Cambridge", "CambridgeMa", "Canberra", "CapeTown",
        "Chemnitz", "Chicago", "ClermontFerrand", "Colmar", "Copenhagen", "Cork",
        "Corsica", "Corvallis", "Cottbus", "Cracow", "CraterLake", "Curitiba",
        "Cusco", "Dallas", "Darmstadt", "Davis", "DenHaag", "Denver",
        "Dessau", "Dortmund", "Dresden", "Dublin", "Duesseldorf", "Duisburg",
        "Edinburgh", "Eindhoven", "Emden", "Erfurt", "Erlangen", "Eugene",
        "Flensburg", "FortCollins", "Frankfurt", "FrankfurtOder", "Freiburg", "Gdansk",
        "Genf", "Gent", "Gera", "Glasgow", "Gliwice", "Goerlitz",
        "Goeteborg", "Goettingen", "Graz", "Groningen", "Halifax", "Halle",
        "Hamburg", "Hamm", "Hannover", "Heilbronn", "Helsinki", "Hertogenbosch",
        "Huntsville", "Innsbruck", "Istanbul", "Jena", "Jerusalem", "Johannesburg",
        "Kaiserslautern", "Karlsruhe", "Kassel", "Katowice", "Kaunas", "Kiel",
        "Kiew", "Koblenz", "Koeln", "Konstanz", "LaPaz", "LaPlata",
        "LakeGarda", "Lausanne", "Leeds", "Leipzig", "Lima", "Linz",
        "Lisbon", "Liverpool", "Ljubljana", "Lodz", "London", "Luebeck",
        "Luxemburg", "Lyon", "Maastricht", "Madison", "Madrid", "Magdeburg",
        "Mainz", "Malmoe", "Manchester", "Mannheim", "Marseille", "Melbourne",
        "Memphis", "MexicoCity", "Miami", "Moenchengladbach", "Montevideo", "Montpellier",
        "Montreal", "Moscow", "Muenchen", "Muenster", "NewDelhi", "NewOrleans",
        "NewYorkCity", "Nuernberg", "Oldenburg", "Oranienburg", "Orlando", "Oslo",
        "Osnabrueck", "Ostrava", "Ottawa", "Paderborn", "Palma", "PaloAlto",
        "Paris", "Perth", "Philadelphia", "PhnomPenh", "Portland", "PortlandME",
        "Porto", "PortoAlegre", "Potsdam", "Poznan", "Prag", "Providence",
        "Regensburg", "Riga", "RiodeJaneiro", "Rostock", "Rotterdam", "Ruegen",
        "Saarbruecken", "Sacramento", "Saigon", "Salzburg", "SanFrancisco", "SanJose",
        "SanktPetersburg", "SantaBarbara", "SantaCruz", "Santiago", "Sarajewo", "Schwerin",
        "Seattle", "Seoul", "Sheffield", "Singapore", "Sofia", "Stockholm",
        "Stockton", "Strassburg", "Stuttgart", "Sucre", "Sydney", "Szczecin",
        "Tallinn", "Tehran", "Tilburg", "Tokyo", "Toronto", "Toulouse",
        "Trondheim", "Tucson", "Turin", "UlanBator", "Ulm", "Usedom",
        "Utrecht", "Vancouver", "Victoria", "WarenMueritz", "Warsaw", "WashingtonDC",
        "Waterloo", "Wien", "Wroclaw", "Wuerzburg", "Wuppertal", "Zagreb",
        "Zuerich",
    ]
}

/// The known city names, as the catalogue spells them.
fn cities() -> (r: Vec<&'static str>)
    ensures
        r@ == city_list(),
{
    let cities = vec![
        "Aachen", "Aarhus", "Adelaide", "Albuquerque", "Alexandria", "Amsterdam",
        "Antwerpen", "Arnhem", "Auckland", "Augsburg", "Austin", "Baghdad",
        "Baku", "Balaton", "Bamberg", "Bangkok", "Barcelona", "Basel",
        "Beijing", "Beirut", "Berkeley", "Berlin", "Bern", "Bielefeld",
        "Birmingham", "Bochum", "Bogota", "Bombay", "Bonn", "Bordeaux",
        "Boulder", "BrandenburgHavel", "Braunschweig", "Bremen", "Bremerhaven", "Brisbane",
        "Bristol", "Brno", "Bruegge", "Bruessel", "Budapest", "BuenosAires",
        "Cairo", "Calgary", "Cambridge", "CambridgeMa", "Canberra", "CapeTown",
        "Chemnitz", "Chicago", "ClermontFerrand", "Colmar", "Copenhagen", "Cork",
        "Corsica", "Corvallis", "Cottbus", "Cracow", "CraterLake", "Curitiba",
        "Cusco", "Dallas", "Darmstadt", "Davis", "DenHaag", "Denver",
        "Dessau", "Dortmund", "Dresden", "Dublin", "Duesseldorf", "Duisburg",
        "Edinburgh", "Eindhoven", "Emden", "Erfurt", "Erlangen", "Eugene",
        "Flensburg", "FortCollins", "Frankfurt", "FrankfurtOder", "Freiburg", "Gdansk",
        "Genf", "Gent", "Gera", "Glasgow", "Gliwice", "Goerlitz",
        "Goeteborg", "Goettingen", "Graz", "Groningen", "Halifax", "Halle",
        "Hamburg", "Hamm", "Hannover", "Heilbronn", "Helsinki", "Hertogenbosch",
        "Huntsville", "Innsbruck", "Istanbul", "Jena", "Jerusalem", "Johannesburg",
        "Kaiserslautern", "Karlsruhe", "Kassel", "Katowice", "Kaunas", "Kiel",
        "Kiew", "Koblenz", "Koeln", "Konstanz", "LaPaz", "LaPlata",
        "LakeGarda", "Lausanne", "Leeds", "Leipzig", "Lima", "Linz",
        "Lisbon", "Liverpool", "Ljubljana", "Lodz", "London", "Luebeck",
        "Luxemburg", "Lyon", "Maastricht", "Madison", "Madrid", "Magdeburg",
        "Mainz", "Malmoe", "Manchester", "Mannheim", "Marseille", "Melbourne",
        "Memphis", "MexicoCity", "Miami", "Moenchengladbach", "Montevideo", "Montpellier",
        "Montreal", "Moscow", "Muenchen", "Muenster", "NewDelhi", "NewOrleans",
        "NewYorkCity", "Nuernberg", "Oldenburg", "Oranienburg", "Orlando", "Oslo",
        "Osnabrueck", "Ostrava", "Ottawa", "Paderborn", "Palma", "PaloAlto",
        "Paris", "Perth", "Philadelphia", "PhnomPenh", "Portland", "PortlandME",
        "Porto", "PortoAlegre", "Potsdam", "Poznan", "Prag", "Providence",
        "Regensburg", "Riga", "RiodeJaneiro", "Rostock", "Rotterdam", "Ruegen",
        "Saarbruecken", "Sacramento", "Saigon", "Salzburg", "SanFrancisco", "SanJose",
        "SanktPetersburg", "SantaBarbara", "SantaCruz", "Santiago", "Sarajewo", "Schwerin",
        "Seattle", "Seoul", "Sheffield", "Singapore", "Sofia", "Stockholm",
        "Stockton", "Strassburg", "Stuttgart", "Sucre", "Sydney", "Szczecin",
        "Tallinn", "Tehran", "Tilburg", "Tokyo", "Toronto", "Toulouse",
        "Trondheim", "Tucson", "Turin", "UlanBator", "Ulm", "Usedom",
        "Utrecht", "Vancouver", "Victoria", "WarenMueritz", "Warsaw", "WashingtonDC",
        "Waterloo", "Wien", "Wroclaw", "Wuerzburg", "Wuppertal", "Zagreb",
        "Zuerich",
    ];
    proof {
        assert(cities@ =~= city_list());
    }
    cities
}

/// The position of the last catalogue city whose lowercase name is
/// `name_lower`, when there is one.
pub open spec fn find_city(cities: Seq<&'static str>, name_lower: Seq<char>) -> Option<int>
    decreases cities.len(),
{
    if cities.len() == 0 {
        None
    } else if lower_of(cities.last()@) == name_lower {
        Some(cities.len() - 1)
    } else {
        find_city(cities.drop_last(), name_lower)
    }
}

/// The download address of a catalogue city's extract.
pub open spec fn bbbike_url_of(city: &'static str) -> Seq<char> {
    if lower_of(city@) == "newyorkcity"@ {
        "https://download.bbbike.org/osm/bbbike"@ + "/NewYork/NewYork"@ + ".osm.pbf"@
    } else {
        "https://download.bbbike.org/osm/bbbike"@ + "/"@ + city@ + "/"@ + city@ + ".osm.pbf"@
    }
}

/// The local file name and download address of a place's extract: the place
/// is looked up in the catalogue by lowercase name; an unknown place is an
/// error naming it.
pub fn get_bbbike_source(city_name: &String) -> (r: Result<
    (String, String),
    SourceNotFoundError,
>)
    ensures
        ({
            let nl = lower_of(city_name@);
            match find_city(city_list(), nl) {
                Some(i) => r is Ok && r.unwrap().0@ == nl + ".osm.pbf"@ && r.unwrap().1@
                    == bbbike_url_of(city_list()[i]),
                None => r is Err && r.unwrap_err().spec_source_name() == city_name@,
            }
        }),
{
    let cities = cities();
    let name_lower = lowercase(city_name.as_str());
    let mut filename = String::new();
    let mut url = String::new();
    let mut found = false;
    let mut i: usize = 0;
    while i < cities.len()
        invariant
            cities@ == city_list(),
            0 <= i <= cities@.len(),
            name_lower@ == lower_of(city_name@),
            match find_city(city_list().take(i as int), name_lower@) {
                Some(j) => found && filename@ == name_lower@ + ".osm.pbf"@ && url@
                    == bbbike_url_of(city_list()[j]),
                None => !found,
            },
        decreases cities@.len() - i,
    {
        let city = cities[i];
        let city_lower = lowercase(city);
        if str_eq(city_lower.as_str(), name_lower.as_str()) {
            found = true;
            let is_new_york = str_eq(city_lower.as_str(), "newyorkcity");
            let mut f = city_lower;
            f.append(".osm.pbf");
            filename = f;
            if is_new_york {
                let mut u = "https://download.bbbike.org/osm/bbbike".to_owned();
                u.append("/NewYork/NewYork");
                u.append(".osm.pbf");
                url = u;
            } else {
                let mut u = "https://download.bbbike.org/osm/bbbike".to_owned();
                u.append("/");
                u.append(city);
                u.append("/");
                u.append(city);
                u.append(".osm.pbf");
                url = u;
            }
        }
        proof {
            assert(city_list().take(i + 1).drop_last() =~= city_list().take(i as int));
            assert(city_list().take(i + 1).last() == city_list()[i as int]);
        }
        i += 1;
    }
    proof {
        assert(city_list().take(city_list().len() as int) =~= city_list());
    }
    if found {
        Ok((filename, url))
    } else {
        Err(SourceNotFoundError::new(city_name.clone()))
    }
}

} // verus!
