//! Output file names for the extracted tables.
use crate::tags::lower_of;
use crate::tags::lowercase;
use vstd::prelude::*;

verus! {

/// The stem of every output file for one city and network type.
pub open spec fn outpath_of(outpath: Seq<char>, city: Seq<char>, network: Seq<char>) -> Seq<char> {
    outpath + "/"@ + lower_of(city) + "_"@ + network
}

/// The stem of every output file for one city and network type:
/// `<outpath>/<city in lowercase>_<network type>`.
pub fn get_outpath(outpath: &str, city_name: &str, network_type: &str) -> (r: String)
    ensures
        r@ == outpath_of(outpath@, city_name@, network_type@),
{
    let mut r = outpath.to_owned();
    r.append("/");
    r.append(lowercase(city_name).as_str());
    r.append("_");
    r.append(network_type);
    r
}

/// The name of the edge table file for one city and network type.
pub fn get_edge_outpath(outpath: &str, city_name: &str, network_type: &str) -> (r: String)
    ensures
        r@ == outpath_of(outpath@, city_name@, network_type@) + "_edges.parquet"@,
{
    let mut r = get_outpath(outpath, city_name, network_type);
    r.append("_edges.parquet");
    r
}

/// The name of the node table file for one city and network type.
pub fn get_node_outpath(outpath: &str, city_name: &str, network_type: &str) -> (r: String)
    ensures
        r@ == outpath_of(outpath@, city_name@, network_type@) + "_nodes.parquet"@,
{
    let mut r = get_outpath(outpath, city_name, network_type);
    r.append("_nodes.parquet");
    r
}

} // verus!
