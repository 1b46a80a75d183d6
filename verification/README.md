# metron

SI quantities with dimensional analysis, verified with Verus.

A `Quantity<T>` is a value of scalar type `T` tagged with a `Unit`: seven
integer exponents over the SI base units `[m, kg, s, A, K, mol, cd]`.
Adding or subtracting quantities requires equal units; multiplying and
dividing them adds and subtracts exponents; `pow` multiplies exponents and
`sqrt` halves them. Vector and tensor quantities carry one unit for all
their components.

Layout:

- `src/unit.rs`: units, their exponent arithmetic and its laws;
- `src/dim.rs`: the named SI base and derived units;
- `src/unit_name.rs`: SI symbols of units (`"m/s"`, `"N"`, ...);
- `src/prefix.rs`: SI prefixes, their powers of ten and symbols;
- `src/quantity.rs`, `src/vector.rs`, `src/tensor.rs`: the tagged values
  and their arithmetic;
- `app/`: the `f64` and nalgebra-facing parts: prefix scale factors,
  display, the values of norms, dot and cross products (their units are
  kept by `src/`), constants, serde records.
