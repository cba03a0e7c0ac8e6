//! One sample of the sensor and its two textual encodings.

use vstd::prelude::*;
use vstd::string::*;

verus! {

/// The encoding in which a reading is written out.
#[allow(clippy::upper_case_acronyms)]
#[derive(Clone, Copy, Debug, PartialEq, Eq, PartialOrd, Ord, Structural)]
pub enum OutputFormat {
    /// A JSON object with the keys `CO2`, `HUM` and `TMP`.
    JSON,
    /// Comma-separated `KEY=value` pairs.
    KV,
}

impl OutputFormat {
    /// The name under which the format is selected: `json` or `kv`.
    pub open spec fn label(self) -> Seq<char> {
        match self {
            OutputFormat::JSON => "json"@,
            OutputFormat::KV => "kv"@,
        }
    }

    /// Returns the name under which the format is selected.
    pub fn name(&self) -> (name: &'static str)
        ensures
            name@ == self.label(),
    {
        match self {
            OutputFormat::JSON => "json",
            OutputFormat::KV => "kv",
        }
    }
}

/// The three fields of a reading as mathematical text.
pub struct Fields {
    pub co2: Seq<char>,
    pub hum: Seq<char>,
    pub tmp: Seq<char>,
}

/// The key-value encoding of three fields: `CO2=<co2>,HUM=<hum>,TMP=<tmp>`.
pub open spec fn kv_text(fields: Fields) -> Seq<char> {
    "CO2="@ + fields.co2 + ",HUM="@ + fields.hum + ",TMP="@ + fields.tmp
}

/// The JSON encoding of three fields:
/// `{"CO2":<co2>,"HUM":<hum>,"TMP":<tmp>}`, the values unquoted.
pub open spec fn json_text(fields: Fields) -> Seq<char> {
    "{\"CO2\":"@ + fields.co2 + ",\"HUM\":"@ + fields.hum + ",\"TMP\":"@ + fields.tmp + "}"@
}

/// The encoding of three fields in the given format. The keys always come in
/// the order CO2, HUM, TMP, and the values are copied through untouched.
pub open spec fn rendered(format: OutputFormat, fields: Fields) -> Seq<char> {
    match format {
        OutputFormat::JSON => json_text(fields),
        OutputFormat::KV => kv_text(fields),
    }
}

/// One sample reported by the sensor. The fields hold the text exactly as it
/// was captured from the line; nothing is parsed into numbers or normalised.
#[allow(clippy::upper_case_acronyms)]
#[derive(Debug, PartialEq, Eq)]
pub struct UDCO2S {
    /// CO2 concentration, an integer.
    pub co2: String,
    /// Relative humidity, a decimal.
    pub hum: String,
    /// Temperature, a decimal.
    pub tmp: String,
}

impl View for UDCO2S {
    type V = Fields;

    open spec fn view(&self) -> Fields {
        Fields { co2: self.co2@, hum: self.hum@, tmp: self.tmp@ }
    }
}

impl UDCO2S {
    /// Builds a reading from the three captured pieces of text.
    pub fn new(co2: &str, hum: &str, tmp: &str) -> (reading: UDCO2S)
        ensures
            reading@ == (Fields { co2: co2@, hum: hum@, tmp: tmp@ }),
    {
        UDCO2S { co2: co2.to_owned(), hum: hum.to_owned(), tmp: tmp.to_owned() }
    }

    /// Encodes the reading as one line of text, without a line terminator.
    ///
    /// `OutputFormat::JSON` gives `{"CO2":637,"HUM":56.5,"TMP":29.7}`,
    /// `OutputFormat::KV` gives `CO2=637,HUM=56.5,TMP=29.7`.
    pub fn format(self, output_format: OutputFormat) -> (line: String)
        ensures
            line@ == rendered(output_format, self@),
    {
        if output_format == OutputFormat::JSON {
            let mut line = String::from_str("{\"CO2\":");
            line.append(self.co2.as_str());
            line.append(",\"HUM\":");
            line.append(self.hum.as_str());
            line.append(",\"TMP\":");
            line.append(self.tmp.as_str());
            line.append("}");
            line
        } else {
            let mut line = String::from_str("CO2=");
            line.append(self.co2.as_str());
            line.append(",HUM=");
            line.append(self.hum.as_str());
            line.append(",TMP=");
            line.append(self.tmp.as_str());
            line
        }
    }
}

} // verus!
