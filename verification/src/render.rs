use vstd::prelude::*;
use vstd::string::StringExecFns;
use crate::config::MqttConfig;
use crate::config::OutputType;
use crate::secret::redacted_placeholder;

verus! {

/// The character that writes a single decimal digit.
pub open spec fn digit_char(d: int) -> char
    recommends
        0 <= d <= 9,
{
    if d == 0 {
        '0'
    } else if d == 1 {
        '1'
    } else if d == 2 {
        '2'
    } else if d == 3 {
        '3'
    } else if d == 4 {
        '4'
    } else if d == 5 {
        '5'
    } else if d == 6 {
        '6'
    } else if d == 7 {
        '7'
    } else if d == 8 {
        '8'
    } else {
        '9'
    }
}

/// The decimal rendering of a non-negative integer, most significant digit
/// first and without leading zeros (a lone zero renders as `0`).
pub open spec fn dec_digits(n: int) -> Seq<char>
    recommends
        n >= 0,
    decreases n,
{
    if n < 10 {
        seq![digit_char(n)]
    } else {
        dec_digits(n / 10).push(digit_char(n % 10))
    }
}

/// Appends the decimal rendering of `n` to `out`.
pub fn push_decimal(out: &mut String, n: u64)
    ensures
        final(out)@ == old(out)@ + dec_digits(n as int),
    decreases n,
{
    if n >= 10 {
        push_decimal(out, n / 10);
    }
    let d: u64 = n % 10;
    let ds: &str = if d == 0 {
        "0"
    } else if d == 1 {
        "1"
    } else if d == 2 {
        "2"
    } else if d == 3 {
        "3"
    } else if d == 4 {
        "4"
    } else if d == 5 {
        "5"
    } else if d == 6 {
        "6"
    } else if d == 7 {
        "7"
    } else if d == 8 {
        "8"
    } else {
        "9"
    };
    proof {
        reveal_strlit("0");
        reveal_strlit("1");
        reveal_strlit("2");
        reveal_strlit("3");
        reveal_strlit("4");
        reveal_strlit("5");
        reveal_strlit("6");
        reveal_strlit("7");
        reveal_strlit("8");
        reveal_strlit("9");
        assert(ds@ =~= seq![digit_char(d as int)]);
    }
    out.append(ds);
    proof {
        assert(out@ =~= old(out)@ + dec_digits(n as int));
    }
}

/// The text that names an output-encoding variant.
pub open spec fn output_type_text(t: OutputType) -> Seq<char> {
    match t {
        OutputType::Binary => "Binary"@,
        OutputType::Json => "Json"@,
    }
}

/// The text that writes a boolean flag.
pub open spec fn bool_text(b: bool) -> Seq<char> {
    if b {
        "true"@
    } else {
        "false"@
    }
}

/// The text that writes the optional subscribe delay.
pub open spec fn delay_text(d: Option<u64>) -> Seq<char> {
    match d {
        Option::None => "none"@,
        Option::Some(n) => dec_digits(n as int),
    }
}

/// The default textual rendering of a configuration. The secret `url`
/// never appears: the placeholder stands in its place, and the rendering is
/// built from every field but the secret's content.
pub open spec fn describe_spec(c: MqttConfig) -> Seq<char> {
    "MqttConfig { url: "@ + redacted_placeholder() + ", topic: "@ + c.topic@ + ", client_id: "@
        + c.client_id@ + ", timeout_secs: "@ + dec_digits(c.timeout as int)
        + ", payload_output_type: "@ + output_type_text(c.payload_output_type)
        + ", subscribe_delay_secs: "@ + delay_text(c.subscribe_delay) + ", qos: "@ + dec_digits(
        c.qos as int,
    ) + ", clean_session: "@ + bool_text(c.clean_session) + " }"@
}

impl MqttConfig {
    /// Renders the configuration for logs and diagnostics, with the secret
    /// `url` replaced by the fixed placeholder.
    pub fn describe(&self) -> (r: String)
        ensures
            r@ == describe_spec(*self),
    {
        let mut out = String::new();
        out.append("MqttConfig { url: ");
        proof {
            assert(out@ =~= "MqttConfig { url: "@);
        }
        let red = self.url.redacted();
        out.append(red.as_str());
        out.append(", topic: ");
        out.append(self.topic.as_str());
        out.append(", client_id: ");
        out.append(self.client_id.as_str());
        out.append(", timeout_secs: ");
        push_decimal(&mut out, self.timeout);
        out.append(", payload_output_type: ");
        let variant_text: &str = match self.payload_output_type {
            OutputType::Binary => "Binary",
            OutputType::Json => "Json",
        };
        out.append(variant_text);
        out.append(", subscribe_delay_secs: ");
        match &self.subscribe_delay {
            Option::None => out.append("none"),
            Option::Some(n) => push_decimal(&mut out, *n),
        }
        out.append(", qos: ");
        push_decimal(&mut out, self.qos as u64);
        out.append(", clean_session: ");
        out.append(if self.clean_session { "true" } else { "false" });
        out.append(" }");
        proof {
            assert(out@ =~= describe_spec(*self));
        }
        out
    }
}

/// The rendering is independent of the secret: two configurations that
/// agree on every field but `url` render to the same text, so the secret's
/// content never reaches the rendering.
pub proof fn lemma_describe_redacts_url(c1: MqttConfig, c2: MqttConfig)
    requires
        c1.topic@ == c2.topic@,
        c1.client_id@ == c2.client_id@,
        c1.timeout == c2.timeout,
        c1.payload_output_type == c2.payload_output_type,
        c1.subscribe_delay == c2.subscribe_delay,
        c1.qos == c2.qos,
        c1.clean_session == c2.clean_session,
    ensures
        describe_spec(c1) == describe_spec(c2),
{
}

} // verus!
