# rubrum_swisseph

A verified adapter between Swiss Ephemeris outputs and `rubrum` chart types.

- `src/` is the library, verified with Verus. It holds every mapping and ordering rule of the
  adapter: Swiss Ephemeris bodies to chart occupants, house systems to Swiss Ephemeris house
  systems, ayanamsas to sidereal mode codes, house numbers to houses, the order of house
  cusps and angles, the motion rule, and which error a conversion reports. Values that are
  floating point (sign degrees, ephemeris extras) pass through it as type parameters, and a
  rejected floating-point value travels in an error as its bit pattern.
- `app/` is ordinary Rust: the same functions on the `swisseph` and `rubrum` types, the
  floating-point work (longitude normalization, house position flooring), the `Display` of
  errors and the call that sets the sidereal mode.
- `tests/` runs the library on concrete values.
