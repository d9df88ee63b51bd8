use osmtools::paths::{get_edge_outpath, get_node_outpath, get_outpath};

#[test]
fn outpath_lowercases_the_city() {
    assert_eq!(get_outpath("out", "Bruegge", "walking"), "out/bruegge_walking");
}

#[test]
fn edge_and_node_outpaths_add_their_suffixes() {
    assert_eq!(
        get_edge_outpath("out", "Bruegge", "cycling"),
        "out/bruegge_cycling_edges.parquet"
    );
    assert_eq!(
        get_node_outpath("out", "Bruegge", "driving"),
        "out/bruegge_driving_nodes.parquet"
    );
}
