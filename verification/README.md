# XIAO ESP32-S3 sensor station

Firmware for a Seeed Studio XIAO ESP32-S3 that reads a set of I2C sensors
(SCD41, SPS30, SHT41, BME690, AS7343, BMP581, OPT4048, BMM350 and the MLX90640
thermal camera), keeps a day of readings per sensor in PSRAM and serves them
as JSON over Wi-Fi.

## Layout

- `src/` is the `xiao_esp32s3` library, verified with Verus. It holds every
  decision the firmware makes: the sensors' register encodings and reply
  decoding, the Sensirion and flash-record CRCs, the measurement ring buffers
  and their sequence numbers, the warm-up, decimation and state-saving
  schedules, the flash record and partition-table formats, the PSRAM bump
  allocator, the integer calibration fields of the BMM350, BME690 and
  MLX90640, and the HTTP request handling and JSON of the API.
- `tests/` runs the library on concrete values.
- `app/` is the firmware binary: Embassy tasks, the I2C and flash transfers,
  Wi-Fi and TCP, the BSEC library bindings, and the floating-point
  conversions (temperatures, pressures, lux, colour, thermal pixels), all
  driven by the library.

## Web API

`GET /` and `GET /index.html` serve the web page, `GET /api/status` reports
the uptime and the histories of the SCD41, SPS30, BME690 and AS7343,
`GET /api/readings` one page of one of those sensors' readings (`sensor`,
`from`, `limit`), and `GET /api/thermal` the newest thermal image. Other
methods are answered 405, unknown paths 404, any other sensor 400 and a header
block over 512 bytes 431.
