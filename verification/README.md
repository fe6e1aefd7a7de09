# termrain

A terminal weather forecast and rain-radar viewer. The forecast comes from the
Japan Meteorological Agency (JMA) for places in Japan and from Open-Meteo
elsewhere, where the radar comes from RainViewer; the radar overlays rain on a map (CARTO Voyager, GSI Standard or GSI
Aerial), as an image on graphics-capable terminals or as a Braille canvas.

## Layout

- `src/` — the verified library (Verus): weather-code tables, the JMA and
  Open-Meteo response handling, nowcast frame selection and colour decoding,
  raster reduction and drawing, map overlays, the key-driven state machine,
  and the text of every panel. Each public function carries a contract;
  the laws of the library are public proof functions next to the code they
  speak of.
- `tests/` — tests of the library on concrete values.
- `app/` — the program around it: command line, logging, HTTP fetches,
  floating-point map geometry and image composition, and terminal drawing.

Coordinates enter the library in millionths of a degree and rain
intensities in tenths of mm/h; the application converts at its edges.
