use vstd::prelude::*;
use vstd::string::StringExecFns;

verus! {

/// The first row of every log file.
pub const LOG_HEADER: &'static str = "utc_d,utc_t,lat,lon,alt,head\n";

/// The path of the log file of a consumer started at the time that `stamp`
/// writes out.
pub fn log_file_name(stamp: &str) -> (r: String)
    ensures
        r@ == "logs/log-"@ + stamp@ + ".csv"@,
{
    let mut name = String::from_str("logs/log-");
    name.append(stamp);
    name.append(".csv");
    name
}

/// One data row of a log file: the point's own UTC date and time, then its
/// latitude, longitude, altitude and heading, separated by commas and ended
/// by a newline.
pub fn log_row(date: &str, time: &str, lat: &str, lon: &str, alt: &str, heading: &str) -> (r: String)
    ensures
        r@ == date@ + ","@ + time@ + ","@ + lat@ + ","@ + lon@ + ","@ + alt@ + ","@ + heading@
            + "\n"@,
{
    let mut row = String::from_str(date);
    row.append(",");
    row.append(time);
    row.append(",");
    row.append(lat);
    row.append(",");
    row.append(lon);
    row.append(",");
    row.append(alt);
    row.append(",");
    row.append(heading);
    row.append("\n");
    row
}

} // verus!
