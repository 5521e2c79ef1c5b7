# stm32_lessons

A set of STM32F4 peripheral lessons (clocks, EXTI, SPI, I2C, USART, timers, RTC, DMA, ADC,
SysTick, an LCD1602 and a ws2812 LED), split in two:

- `src/` is a Verus-verified library holding what the lessons' handlers decide and compute:
  the echo terminal's line editing, the RTC calendar decoding and display, the ws2812 colour
  frames, the LCD1602 line levels and busy flag, the I2C master and slave event handling,
  the SPI, DMA and timer interrupt decisions, and the memory-map arithmetic (bit-band alias,
  NVIC enable bits). Every public function has a contract; the properties that relate
  several calls are stated as proof functions (`lemma_*`).
- `app/` holds the register set-up, the interrupt handlers and the debug output for the
  board, calling the library for every decision.
- `tests/` runs the library on concrete values.

Numbers are turned into decimal text by `itoa` where the lessons used it, behind the one
trusted wrapper `text::itoa_format_u32`.
