# palette (RGB)

The RGB color type of a color library, as a Verus-verified crate.

- `src/` is the verified library: `Rgb<S, T>` and `Rgba<S, T>` with integer
  components, hex-code parsing (`Rgb::from_str`) and hexadecimal formatting
  (`fmt_lower_hex`, `fmt_upper_hex`), packing into `u32` in the four channel
  orders (`channels`, `cast::Packed`, the `From` conversions), component bounds
  and clamping, component-wise arithmetic on linear colors (`ops`), format and
  transfer-function conversions, equality, and random colors drawn with `rand`
  (`random`). Each public function states its result in `ensures`, exactly
  except for random draws, of which only the range is stated; round trips
  (packing, components, hex text) are public proof functions.
- `app/` holds what the library cannot: the std `LowerHex`, `UpperHex`,
  `FromStr`, `Display` and `Error` impls, the `bytemuck`, `approx` and generic
  `rand` impls (on a copy of the type), and the floating-point operations (hue, HSL and
  HSV conversion, float bounds and clamping).
- `tests/` runs the library on concrete values.
