//! The decoded weather response, the API error response, and the exact
//! text the program prints for each outcome.
//!
//! Numeric fields carry the number already rendered as text (the
//! shortest decimal form, as the number-to-string conversion of the
//! caller produces it): the library's own concern is the shape of the
//! output, not floating-point arithmetic.

use vstd::prelude::*;

verus! {

/// The `main` object of a weather report: temperature and humidity,
/// each rendered as text.
pub struct Main {
    pub temp: String,
    pub humidity: String,
}

/// The wind object of a weather report: the speed, rendered as text.
pub struct Wind {
    pub speed: String,
}

/// One condition entry of a weather report.
pub struct Weather {
    pub main: String,
    pub description: String,
}

/// A successful weather report: location name, temperature and
/// humidity, the list of conditions, and the wind.
pub struct WeatherResponse {
    pub name: String,
    pub main: Main,
    pub weather: Vec<Weather>,
    pub wind: Wind,
}

/// An API-reported client error: its human-readable message.
pub struct WeatherError {
    pub message: String,
}

/// The text of the weather report: the fixed template filled with the
/// location name, temperature, first condition description, humidity
/// and wind speed.
pub open spec fn rendered_weather(
    name: Seq<char>,
    temp: Seq<char>,
    description: Seq<char>,
    humidity: Seq<char>,
    speed: Seq<char>,
) -> Seq<char> {
    "weather in "@ + name + ":\n  "@ + temp + "°F "@ + description + "\n  humidity: "@
        + humidity + "%\n  wind speed: "@ + speed + "mph"@
}

impl WeatherResponse {
    /// Render the report for printing. The first condition entry
    /// supplies the description, so the condition list must not be
    /// empty.
    pub fn to_display_string(&self) -> (r: String)
        requires
            self.weather@.len() >= 1,
        ensures
            r@ == rendered_weather(
                self.name@,
                self.main.temp@,
                self.weather@[0].description@,
                self.main.humidity@,
                self.wind.speed@,
            ),
    {
        let mut out = String::from_str("weather in ");
        out.append(self.name.as_str());
        out.append(":\n  ");
        out.append(self.main.temp.as_str());
        out.append("°F ");
        out.append(self.weather[0].description.as_str());
        out.append("\n  humidity: ");
        out.append(self.main.humidity.as_str());
        out.append("%\n  wind speed: ");
        out.append(self.wind.speed.as_str());
        out.append("mph");
        out
    }
}

/// What one fetch came to: a decoded report on a 2xx status, a decoded
/// API error on a 4xx status, or nothing worth reading on any other
/// status.
pub enum FetchOutcome {
    Success(WeatherResponse),
    ClientError(WeatherError),
    Other,
}

/// The line printed for an API-reported client error.
pub fn format_error(message: &str) -> (r: String)
    ensures
        r@ == "an error occurred: "@ + message@,
{
    let mut out = String::from_str("an error occurred: ");
    out.append(message);
    out
}

/// The line printed when the response is neither a success nor a
/// client error.
pub fn unknown_error_message() -> (r: String)
    ensures
        r@ == "an unknown error occurred"@,
{
    String::from_str("an unknown error occurred")
}

/// The usage text printed when the argument count fits no recognized
/// shape.
pub fn help_message() -> (r: String)
    ensures
        r@ == "Usage:\n  $ weather <city> [region] [country]"@,
{
    String::from_str("Usage:\n  $ weather <city> [region] [country]")
}

/// The one line the program prints for an outcome: the rendered report
/// on success, the API's message on a client error, and the generic
/// line otherwise.
pub fn render_outcome(outcome: &FetchOutcome) -> (r: String)
    requires
        outcome matches FetchOutcome::Success(w) ==> w.weather@.len() >= 1,
    ensures
        match outcome {
            FetchOutcome::Success(w) => r@ == rendered_weather(
                w.name@,
                w.main.temp@,
                w.weather@[0].description@,
                w.main.humidity@,
                w.wind.speed@,
            ),
            FetchOutcome::ClientError(e) => r@ == "an error occurred: "@ + e.message@,
            FetchOutcome::Other => r@ == "an unknown error occurred"@,
        },
{
    match outcome {
        FetchOutcome::Success(w) => w.to_display_string(),
        FetchOutcome::ClientError(e) => format_error(e.message.as_str()),
        FetchOutcome::Other => unknown_error_message(),
    }
}

} // verus!
