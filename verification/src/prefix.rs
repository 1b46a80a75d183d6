//! SI metric prefix (yocto through yotta).

use vstd::prelude::*;

verus! {

/// SI metric prefix (yocto through yotta).
///
/// Prefixes are a construction/display concern, not a unit concern: all
/// quantities store values in SI base units, and a prefix only says by which
/// power of ten a value is scaled for display.
#[derive(Debug, Clone, Copy, PartialEq, Eq, PartialOrd, Ord, Hash, Default, Structural)]
pub enum SiPrefix {
    Yocto,
    Zepto,
    Atto,
    Femto,
    Pico,
    Nano,
    Micro,
    Milli,
    Centi,
    Deci,
    /// No prefix: scale 1.
    #[default]
    NoPrefix,
    Deca,
    Hecto,
    Kilo,
    Mega,
    Giga,
    Tera,
    Peta,
    Exa,
    Zetta,
    Yotta,
}

/// Position of a prefix in the declaration order, smallest scale first;
/// the derived ordering of [`SiPrefix`] follows it.
pub open spec fn prefix_rank(p: SiPrefix) -> int {
    match p {
        SiPrefix::Yocto => 0,
        SiPrefix::Zepto => 1,
        SiPrefix::Atto => 2,
        SiPrefix::Femto => 3,
        SiPrefix::Pico => 4,
        SiPrefix::Nano => 5,
        SiPrefix::Micro => 6,
        SiPrefix::Milli => 7,
        SiPrefix::Centi => 8,
        SiPrefix::Deci => 9,
        SiPrefix::NoPrefix => 10,
        SiPrefix::Deca => 11,
        SiPrefix::Hecto => 12,
        SiPrefix::Kilo => 13,
        SiPrefix::Mega => 14,
        SiPrefix::Giga => 15,
        SiPrefix::Tera => 16,
        SiPrefix::Peta => 17,
        SiPrefix::Exa => 18,
        SiPrefix::Zetta => 19,
        SiPrefix::Yotta => 20,
    }
}

/// The power of ten that a prefix stands for: its scale factor is
/// `10^prefix_exponent(p)` (e.g. `Kilo` is 10³).
pub open spec fn prefix_exponent(p: SiPrefix) -> int {
    match p {
        SiPrefix::Yocto => -24,
        SiPrefix::Zepto => -21,
        SiPrefix::Atto => -18,
        SiPrefix::Femto => -15,
        SiPrefix::Pico => -12,
        SiPrefix::Nano => -9,
        SiPrefix::Micro => -6,
        SiPrefix::Milli => -3,
        SiPrefix::Centi => -2,
        SiPrefix::Deci => -1,
        SiPrefix::NoPrefix => 0,
        SiPrefix::Deca => 1,
        SiPrefix::Hecto => 2,
        SiPrefix::Kilo => 3,
        SiPrefix::Mega => 6,
        SiPrefix::Giga => 9,
        SiPrefix::Tera => 12,
        SiPrefix::Peta => 15,
        SiPrefix::Exa => 18,
        SiPrefix::Zetta => 21,
        SiPrefix::Yotta => 24,
    }
}

/// The symbol of a prefix (e.g. `k` for `Kilo`, `µ` for `Micro`, the empty
/// string for no prefix).
pub open spec fn prefix_symbol(p: SiPrefix) -> Seq<char> {
    match p {
        SiPrefix::Yocto => "y"@,
        SiPrefix::Zepto => "z"@,
        SiPrefix::Atto => "a"@,
        SiPrefix::Femto => "f"@,
        SiPrefix::Pico => "p"@,
        SiPrefix::Nano => "n"@,
        SiPrefix::Micro => "µ"@,
        SiPrefix::Milli => "m"@,
        SiPrefix::Centi => "c"@,
        SiPrefix::Deci => "d"@,
        SiPrefix::NoPrefix => ""@,
        SiPrefix::Deca => "da"@,
        SiPrefix::Hecto => "h"@,
        SiPrefix::Kilo => "k"@,
        SiPrefix::Mega => "M"@,
        SiPrefix::Giga => "G"@,
        SiPrefix::Tera => "T"@,
        SiPrefix::Peta => "P"@,
        SiPrefix::Exa => "E"@,
        SiPrefix::Zetta => "Z"@,
        SiPrefix::Yotta => "Y"@,
    }
}

/// The declaration order of the prefixes is the order of their scales:
/// one prefix comes before another exactly when its scale is smaller.
pub proof fn lemma_prefix_order_is_scale_order(p: SiPrefix, q: SiPrefix)
    ensures
        prefix_rank(p) < prefix_rank(q) <==> prefix_exponent(p) < prefix_exponent(q),
        prefix_rank(p) == prefix_rank(q) <==> p == q,
{
}

/// Distinct prefixes have distinct symbols, so a symbol names one prefix.
pub proof fn lemma_prefix_symbol_injective(p: SiPrefix, q: SiPrefix)
    ensures
        prefix_symbol(p) == prefix_symbol(q) <==> p == q,
{
    reveal_strlit("y");
    reveal_strlit("z");
    reveal_strlit("a");
    reveal_strlit("f");
    reveal_strlit("p");
    reveal_strlit("n");
    reveal_strlit("µ");
    reveal_strlit("m");
    reveal_strlit("c");
    reveal_strlit("d");
    reveal_strlit("");
    reveal_strlit("da");
    reveal_strlit("h");
    reveal_strlit("k");
    reveal_strlit("M");
    reveal_strlit("G");
    reveal_strlit("T");
    reveal_strlit("P");
    reveal_strlit("E");
    reveal_strlit("Z");
    reveal_strlit("Y");
    let (a, b) = (prefix_symbol(p), prefix_symbol(q));
    if a == b {
        assert(a.len() == b.len());
        if a.len() > 0 {
            assert(a[0] == b[0]);
        }
        if a.len() > 1 {
            assert(a[1] == b[1]);
        }
    }
}

/// The SI prefixes: each prefix stands for its SI power of ten and is
/// written with its SI symbol (yocto 10⁻²⁴ "y", …, milli 10⁻³ "m", centi
/// 10⁻² "c", deci 10⁻¹ "d", no prefix 10⁰ "", deca 10¹ "da", hecto 10² "h",
/// kilo 10³ "k", mega 10⁶ "M", giga 10⁹ "G", …, yotta 10²⁴ "Y").
pub proof fn lemma_si_prefix_table()
    ensures
        prefix_exponent(SiPrefix::Yocto) == -24 && prefix_symbol(SiPrefix::Yocto) == "y"@,
        prefix_exponent(SiPrefix::Zepto) == -21 && prefix_symbol(SiPrefix::Zepto) == "z"@,
        prefix_exponent(SiPrefix::Atto) == -18 && prefix_symbol(SiPrefix::Atto) == "a"@,
        prefix_exponent(SiPrefix::Femto) == -15 && prefix_symbol(SiPrefix::Femto) == "f"@,
        prefix_exponent(SiPrefix::Pico) == -12 && prefix_symbol(SiPrefix::Pico) == "p"@,
        prefix_exponent(SiPrefix::Nano) == -9 && prefix_symbol(SiPrefix::Nano) == "n"@,
        prefix_exponent(SiPrefix::Micro) == -6 && prefix_symbol(SiPrefix::Micro) == "µ"@,
        prefix_exponent(SiPrefix::Milli) == -3 && prefix_symbol(SiPrefix::Milli) == "m"@,
        prefix_exponent(SiPrefix::Centi) == -2 && prefix_symbol(SiPrefix::Centi) == "c"@,
        prefix_exponent(SiPrefix::Deci) == -1 && prefix_symbol(SiPrefix::Deci) == "d"@,
        prefix_exponent(SiPrefix::NoPrefix) == 0 && prefix_symbol(SiPrefix::NoPrefix) == ""@,
        prefix_exponent(SiPrefix::Deca) == 1 && prefix_symbol(SiPrefix::Deca) == "da"@,
        prefix_exponent(SiPrefix::Hecto) == 2 && prefix_symbol(SiPrefix::Hecto) == "h"@,
        prefix_exponent(SiPrefix::Kilo) == 3 && prefix_symbol(SiPrefix::Kilo) == "k"@,
        prefix_exponent(SiPrefix::Mega) == 6 && prefix_symbol(SiPrefix::Mega) == "M"@,
        prefix_exponent(SiPrefix::Giga) == 9 && prefix_symbol(SiPrefix::Giga) == "G"@,
        prefix_exponent(SiPrefix::Tera) == 12 && prefix_symbol(SiPrefix::Tera) == "T"@,
        prefix_exponent(SiPrefix::Peta) == 15 && prefix_symbol(SiPrefix::Peta) == "P"@,
        prefix_exponent(SiPrefix::Exa) == 18 && prefix_symbol(SiPrefix::Exa) == "E"@,
        prefix_exponent(SiPrefix::Zetta) == 21 && prefix_symbol(SiPrefix::Zetta) == "Z"@,
        prefix_exponent(SiPrefix::Yotta) == 24 && prefix_symbol(SiPrefix::Yotta) == "Y"@,
{
}

/// A symbol names exactly one power of ten: for every prefix, its symbol is
/// the SI symbol of the power of ten it scales by (so "k" scales by 10³,
/// "M" by 10⁶, "G" by 10⁹, "T" by 10¹², and so on).
pub proof fn lemma_symbol_names_power(p: SiPrefix)
    ensures
        prefix_symbol(p) == "y"@ <==> prefix_exponent(p) == -24,
        prefix_symbol(p) == "z"@ <==> prefix_exponent(p) == -21,
        prefix_symbol(p) == "a"@ <==> prefix_exponent(p) == -18,
        prefix_symbol(p) == "f"@ <==> prefix_exponent(p) == -15,
        prefix_symbol(p) == "p"@ <==> prefix_exponent(p) == -12,
        prefix_symbol(p) == "n"@ <==> prefix_exponent(p) == -9,
        prefix_symbol(p) == "µ"@ <==> prefix_exponent(p) == -6,
        prefix_symbol(p) == "m"@ <==> prefix_exponent(p) == -3,
        prefix_symbol(p) == "c"@ <==> prefix_exponent(p) == -2,
        prefix_symbol(p) == "d"@ <==> prefix_exponent(p) == -1,
        prefix_symbol(p) == ""@ <==> prefix_exponent(p) == 0,
        prefix_symbol(p) == "da"@ <==> prefix_exponent(p) == 1,
        prefix_symbol(p) == "h"@ <==> prefix_exponent(p) == 2,
        prefix_symbol(p) == "k"@ <==> prefix_exponent(p) == 3,
        prefix_symbol(p) == "M"@ <==> prefix_exponent(p) == 6,
        prefix_symbol(p) == "G"@ <==> prefix_exponent(p) == 9,
        prefix_symbol(p) == "T"@ <==> prefix_exponent(p) == 12,
        prefix_symbol(p) == "P"@ <==> prefix_exponent(p) == 15,
        prefix_symbol(p) == "E"@ <==> prefix_exponent(p) == 18,
        prefix_symbol(p) == "Z"@ <==> prefix_exponent(p) == 21,
        prefix_symbol(p) == "Y"@ <==> prefix_exponent(p) == 24,
{
    lemma_si_prefix_table();
    lemma_prefix_symbol_injective(p, SiPrefix::Yocto);
    lemma_prefix_symbol_injective(p, SiPrefix::Zepto);
    lemma_prefix_symbol_injective(p, SiPrefix::Atto);
    lemma_prefix_symbol_injective(p, SiPrefix::Femto);
    lemma_prefix_symbol_injective(p, SiPrefix::Pico);
    lemma_prefix_symbol_injective(p, SiPrefix::Nano);
    lemma_prefix_symbol_injective(p, SiPrefix::Micro);
    lemma_prefix_symbol_injective(p, SiPrefix::Milli);
    lemma_prefix_symbol_injective(p, SiPrefix::Centi);
    lemma_prefix_symbol_injective(p, SiPrefix::Deci);
    lemma_prefix_symbol_injective(p, SiPrefix::NoPrefix);
    lemma_prefix_symbol_injective(p, SiPrefix::Deca);
    lemma_prefix_symbol_injective(p, SiPrefix::Hecto);
    lemma_prefix_symbol_injective(p, SiPrefix::Kilo);
    lemma_prefix_symbol_injective(p, SiPrefix::Mega);
    lemma_prefix_symbol_injective(p, SiPrefix::Giga);
    lemma_prefix_symbol_injective(p, SiPrefix::Tera);
    lemma_prefix_symbol_injective(p, SiPrefix::Peta);
    lemma_prefix_symbol_injective(p, SiPrefix::Exa);
    lemma_prefix_symbol_injective(p, SiPrefix::Zetta);
    lemma_prefix_symbol_injective(p, SiPrefix::Yotta);
}

impl SiPrefix {
    /// The power of ten of the prefix's scale factor (e.g. `Kilo → 3`,
    /// `Milli → -3`); the scale factor is `10^exponent`.
    pub fn exponent(self) -> (e: i32)
        ensures
            e == prefix_exponent(self),
    {
        match self {
            SiPrefix::Yocto => -24,
            SiPrefix::Zepto => -21,
            SiPrefix::Atto => -18,
            SiPrefix::Femto => -15,
            SiPrefix::Pico => -12,
            SiPrefix::Nano => -9,
            SiPrefix::Micro => -6,
            SiPrefix::Milli => -3,
            SiPrefix::Centi => -2,
            SiPrefix::Deci => -1,
            SiPrefix::NoPrefix => 0,
            SiPrefix::Deca => 1,
            SiPrefix::Hecto => 2,
            SiPrefix::Kilo => 3,
            SiPrefix::Mega => 6,
            SiPrefix::Giga => 9,
            SiPrefix::Tera => 12,
            SiPrefix::Peta => 15,
            SiPrefix::Exa => 18,
            SiPrefix::Zetta => 21,
            SiPrefix::Yotta => 24,
        }
    }

    /// The prefix's symbol (e.g. `"k"`, `"µ"`, `""`).
    pub fn symbol(self) -> (s: &'static str)
        ensures
            s@ == prefix_symbol(self),
    {
        match self {
            SiPrefix::Yocto => "y",
            SiPrefix::Zepto => "z",
            SiPrefix::Atto => "a",
            SiPrefix::Femto => "f",
            SiPrefix::Pico => "p",
            SiPrefix::Nano => "n",
            SiPrefix::Micro => "µ",
            SiPrefix::Milli => "m",
            SiPrefix::Centi => "c",
            SiPrefix::Deci => "d",
            SiPrefix::NoPrefix => "",
            SiPrefix::Deca => "da",
            SiPrefix::Hecto => "h",
            SiPrefix::Kilo => "k",
            SiPrefix::Mega => "M",
            SiPrefix::Giga => "G",
            SiPrefix::Tera => "T",
            SiPrefix::Peta => "P",
            SiPrefix::Exa => "E",
            SiPrefix::Zetta => "Z",
            SiPrefix::Yotta => "Y",
        }
    }

    /// The prefix's symbol as an owned string: what displaying the prefix shows.
    pub fn to_string(&self) -> (s: String)
        ensures
            s@ == prefix_symbol(*self),
    {
        self.symbol().to_owned()
    }
}

} // verus!
